//! The `info` command: which contract, which node, which rendering.

use vstd::prelude::*;
use vstd::string::*;

use crate::hexcode::{hex_of, lemma_hex_chars, to_hex};
use crate::info::{
    code_hash_string, human_lines, json_document, json_plain_char, json_string, json_text,
    label_line, lemma_hex_needs_no_escape, ContractInfo, OutputType,
};
use crate::text::decimal_string;

verus! {

/// Why a lookup of contract metadata failed.
pub enum InfoError {
    /// The node could not be reached, or the session could not be set up.
    Connection(String),
    /// The storage query failed, or its result could not be decoded.
    Fetch(String),
    /// The query succeeded and the node holds no record for the address.
    Absent(String),
    /// The JSON projection could not be written.
    Serialization(String),
}

/// The message that reports that no record was found for `contract`.
pub open spec fn absence_message(contract: Seq<char>) -> Seq<char> {
    "No contract information was found for account id "@ + contract
}

/// The absence message ends with the address that was looked up.
pub proof fn lemma_absence_names_address(contract: Seq<char>)
    ensures
        absence_message(contract).subrange(
            absence_message(contract).len() - contract.len(),
            absence_message(contract).len() as int,
        ) == contract,
{
    assert(absence_message(contract).subrange(
        absence_message(contract).len() - contract.len(),
        absence_message(contract).len() as int,
    ) =~= contract);
}

/// A request for the metadata of one contract.
pub struct InfoCommand {
    /// The address of the contract to display info of, as the chain writes it.
    pub contract: String,
    /// The node's RPC endpoint.
    pub url: String,
    /// Export the call output as JSON.
    pub output_json: bool,
}

impl InfoCommand {
    /// The rendering that the command asks for: JSON exactly when
    /// `output_json` is set.
    pub fn output_type(&self) -> (r: OutputType)
        ensures
            r is Json <==> self.output_json,
    {
        if self.output_json {
            OutputType::Json
        } else {
            OutputType::HumanReadable
        }
    }

    /// The message of the error that reports no record for this contract.
    pub fn absence_error(&self) -> (r: InfoError)
        ensures
            r is Absent,
            r->Absent_0@ == absence_message(self.contract@),
    {
        let mut m = String::from_str("No contract information was found for account id ");
        m.append(self.contract.as_str());
        InfoError::Absent(m)
    }

    /// The human readable listing of a record: trie id, code hash, storage
    /// items and storage deposit, one labelled line each, in that order.
    pub fn basic_display_format_contract_info(info: ContractInfo) -> (r: Vec<String>)
        ensures
            r@.len() == 4,
            forall|i: int| 0 <= i < 4 ==> (#[trigger] r@[i])@ == human_lines(info)[i],
    {
        let trie = to_hex(info.trie_id.as_slice());
        let hash = code_hash_string(&info.code_hash);
        let items = decimal_string(info.storage_items as u128);
        let deposit = decimal_string(info.storage_item_deposit);
        let mut r: Vec<String> = Vec::new();
        r.push(label_line("TrieId:", trie.as_str()));
        r.push(label_line("Code hash:", hash.as_str()));
        r.push(label_line("Storage items:", items.as_str()));
        r.push(label_line("Storage deposit:", deposit.as_str()));
        r
    }

    /// The JSON projection of a record, pretty-printed: trie id and code hash
    /// as strings, the count of storage items as a number, and no deposit.
    pub fn serialize_json(info: ContractInfo) -> (r: Result<String, InfoError>)
        ensures
            r is Ok,
            r is Ok ==> r->Ok_0@ == json_text(info),
    {
        let trie = to_hex(info.trie_id.as_slice());
        let hash = code_hash_string(&info.code_hash);
        proof {
            lemma_hex_chars(info.trie_id@);
            lemma_hex_needs_no_escape(trie@);
            lemma_hex_chars(info.code_hash@);
            lemma_hex_needs_no_escape(hex_of(info.code_hash@));
            assert forall|i: int| 0 <= i < hash@.len() implies
                json_plain_char(#[trigger] hash@[i]) by {
                if i >= 2 {
                    assert(hash@[i] == hex_of(info.code_hash@)[i - 2]);
                }
            }
        }
        let trie_json = match json_string(trie.as_str()) {
            Ok(s) => s,
            Err(e) => {
                return Err(InfoError::Serialization(e.to_string()));
            },
        };
        let hash_json = match json_string(hash.as_str()) {
            Ok(s) => s,
            Err(e) => {
                return Err(InfoError::Serialization(e.to_string()));
            },
        };
        Ok(json_document(trie_json.as_str(), hash_json.as_str(), info.storage_items))
    }
}

} // verus!
