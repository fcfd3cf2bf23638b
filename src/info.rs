//! The contract metadata record and its two renderings.

use vstd::prelude::*;
use vstd::string::*;

use crate::hexcode::{bytes_of_hex, hex_of, is_hex_char, lemma_hex_round_trip, to_hex};
use crate::text::{decimal, decimal_string};

verus! {

/// The metadata that a node keeps about one deployed contract.
pub struct ContractInfo {
    /// Identifies the contract's own storage trie.
    pub trie_id: Vec<u8>,
    /// Content hash of the contract's code.
    pub code_hash: [u8; 32],
    /// How many storage entries belong to the contract.
    pub storage_items: u32,
    /// The balance reserved against the contract's storage.
    pub storage_item_deposit: u128,
}

/// How a record is written out.
pub enum OutputType {
    /// A listing of labelled lines, one per attribute of the record.
    HumanReadable,
    /// The record's JSON projection, pretty-printed.
    Json,
}

/// The text of a code hash: `0x` and its hexadecimal digits.
pub open spec fn code_hash_text(h: Seq<u8>) -> Seq<char> {
    seq!['0', 'x'] + hex_of(h)
}

/// The labels of the human readable listing, in their order.
pub open spec fn human_labels() -> Seq<Seq<char>> {
    seq!["TrieId:"@, "Code hash:"@, "Storage items:"@, "Storage deposit:"@]
}

/// The values of the human readable listing, in the order of the labels.
pub open spec fn human_values(info: ContractInfo) -> Seq<Seq<char>> {
    seq![
        hex_of(info.trie_id@),
        code_hash_text(info.code_hash@),
        decimal(info.storage_items as nat),
        decimal(info.storage_item_deposit as nat),
    ]
}

/// The human readable listing: one `label value` line per attribute.
pub open spec fn human_lines(info: ContractInfo) -> Seq<Seq<char>> {
    Seq::new(4, |i: int| human_labels()[i] + seq![' '] + human_values(info)[i])
}

/// A JSON string of text that holds no character that JSON escapes.
pub open spec fn quoted(s: Seq<char>) -> Seq<char> {
    seq!['"'] + s + seq!['"']
}

/// Whether JSON writes `c` inside a string as it is.
pub open spec fn json_plain_char(c: char) -> bool {
    c != '"' && c != '\\' && c as u32 >= 0x20
}

/// One member of a pretty-printed JSON object: indented key, colon, value.
pub open spec fn json_member(key: Seq<char>, value: Seq<char>) -> Seq<char> {
    "  "@ + quoted(key) + ": "@ + value
}

/// The members of a pretty-printed JSON object, one per line.
pub open spec fn json_members(fields: Seq<(Seq<char>, Seq<char>)>) -> Seq<char>
    decreases fields.len(),
{
    if fields.len() <= 1 {
        if fields.len() == 0 { Seq::empty() } else { json_member(fields[0].0, fields[0].1) }
    } else {
        json_member(fields[0].0, fields[0].1) + ",\n"@ + json_members(fields.drop_first())
    }
}

/// A pretty-printed JSON object of the given keys and value texts, in order.
pub open spec fn json_object(fields: Seq<(Seq<char>, Seq<char>)>) -> Seq<char> {
    "{\n"@ + json_members(fields) + "\n}"@
}

/// The members of the JSON projection, given the JSON texts of its values.
pub open spec fn projection_fields(
    trie_id: Seq<char>,
    code_hash: Seq<char>,
    storage_items: u32,
) -> Seq<(Seq<char>, Seq<char>)> {
    seq![
        ("trie_id"@, trie_id),
        ("code_hash"@, code_hash),
        ("storage_items"@, decimal(storage_items as nat)),
    ]
}

/// The JSON projection of a record: its trie id and code hash as strings and
/// its count of storage items; the deposit is left out.
pub open spec fn json_text(info: ContractInfo) -> Seq<char> {
    json_object(
        projection_fields(
            quoted(hex_of(info.trie_id@)),
            quoted(code_hash_text(info.code_hash@)),
            info.storage_items,
        ),
    )
}

/// The human readable listing has exactly four lines, and each is its label,
/// a space and the value: trie id, code hash, storage items, storage deposit.
pub proof fn lemma_listing_shape(info: ContractInfo)
    ensures
        human_lines(info).len() == 4,
        human_labels() == seq!["TrieId:"@, "Code hash:"@, "Storage items:"@, "Storage deposit:"@],
        forall|i: int|
            0 <= i < 4 ==> (#[trigger] human_lines(info)[i]).subrange(
                0,
                human_labels()[i].len() + 1int,
            ) == human_labels()[i] + seq![' '],
{
    assert forall|i: int| 0 <= i < 4 implies (#[trigger] human_lines(info)[i]).subrange(
        0,
        human_labels()[i].len() + 1int,
    ) == human_labels()[i] + seq![' '] by {
        assert(human_lines(info)[i].subrange(0, human_labels()[i].len() + 1int) =~= human_labels()[i]
            + seq![' ']);
    }
}

/// The JSON projection of every record is an object with exactly the members
/// `trie_id`, `code_hash` and `storage_items`, in that order, and none for the
/// storage deposit; its trie id is the quoted hexadecimal text of the trie id.
pub proof fn lemma_json_members(info: ContractInfo)
    ensures
        ({
            let f = projection_fields(
                quoted(hex_of(info.trie_id@)),
                quoted(code_hash_text(info.code_hash@)),
                info.storage_items,
            );
            &&& json_text(info) == json_object(f)
            &&& f.len() == 3
            &&& f[0].0 == "trie_id"@ && f[1].0 == "code_hash"@ && f[2].0 == "storage_items"@
            &&& f[0].1 == quoted(hex_of(info.trie_id@))
            &&& f[2].1 == decimal(info.storage_items as nat)
            &&& forall|i: int| 0 <= i < 3 ==> (#[trigger] f[i]).0 != "storage_deposit"@
        }),
{
    reveal_strlit("trie_id");
    reveal_strlit("code_hash");
    reveal_strlit("storage_items");
    reveal_strlit("storage_deposit");
    let f = projection_fields(
        quoted(hex_of(info.trie_id@)),
        quoted(code_hash_text(info.code_hash@)),
        info.storage_items,
    );
    assert forall|i: int| 0 <= i < 3 implies (#[trigger] f[i]).0 != "storage_deposit"@ by {
        assert(f[i].0.len() != "storage_deposit"@.len() || f[i].0[0] != "storage_deposit"@[0]
            || f[i].0[8] != "storage_deposit"@[8]);
    }
}

/// The trie id that the JSON projection holds reads back as the record's trie
/// id, byte for byte.
pub proof fn lemma_trie_id_round_trip(info: ContractInfo)
    ensures
        bytes_of_hex(hex_of(info.trie_id@)) == info.trie_id@,
{
    lemma_hex_round_trip(info.trie_id@);
}

/// What `serde_json` writes for a string (quotes, and escapes inside).
pub uninterp spec fn json_string_of(s: Seq<char>) -> Seq<char>;

/// `serde_json::Error`, carried through opaquely to be turned into a message.
#[verifier::external_type_specification]
#[verifier::external_body]
pub struct ExJsonError(serde_json::Error);

/// Relies on `serde_json::to_string` on a `str`: a JSON string literal, where
/// only `"`, `\\` and control characters below U+0020 are escaped. Writing a
/// `str` into its in-memory buffer does not fail.
#[verifier::external_body]
pub(crate) fn json_string(s: &str) -> (r: Result<String, serde_json::Error>)
    ensures
        r is Ok,
        r is Ok ==> r->Ok_0@ == json_string_of(s@),
        r is Ok ==> ((forall|i: int| 0 <= i < s@.len() ==> json_plain_char(#[trigger] s@[i]))
            ==> r->Ok_0@ == quoted(s@)),
{
    serde_json::to_string(s)
}

/// A JSON string of a hexadecimal text is that text in quotes.
pub proof fn lemma_hex_needs_no_escape(s: Seq<char>)
    requires
        forall|i: int| 0 <= i < s.len() ==> is_hex_char(#[trigger] s[i]),
    ensures
        forall|i: int| 0 <= i < s.len() ==> json_plain_char(#[trigger] s[i]),
{
    assert forall|i: int| 0 <= i < s.len() implies json_plain_char(#[trigger] s[i]) by {
        assert(is_hex_char(s[i]));
    }
}

/// `label`, a space and `value`.
pub fn label_line(label: &str, value: &str) -> (r: String)
    ensures
        r@ == label@ + seq![' '] + value@,
{
    let mut r = String::from_str(label);
    proof {
        reveal_strlit(" ");
    }
    r.append(" ");
    r.append(value);
    r
}

/// The code hash's text: `0x` and two hexadecimal digits per byte.
pub fn code_hash_string(h: &[u8; 32]) -> (r: String)
    ensures
        r@ == code_hash_text(h@),
{
    let mut r = String::from_str("0x");
    proof {
        reveal_strlit("0x");
    }
    let digits = to_hex(h.as_slice());
    r.append(digits.as_str());
    r
}

/// Pretty-prints the JSON projection's object from the JSON texts of its two
/// strings and its count, with members in the order trie id, code hash, count.
pub fn json_document(trie_id: &str, code_hash: &str, storage_items: u32) -> (r: String)
    ensures
        r@ == json_object(projection_fields(trie_id@, code_hash@, storage_items)),
{
    let items = decimal_string(storage_items as u128);
    let mut r = String::from_str("{\n  \"trie_id\": ");
    r.append(trie_id);
    r.append(",\n  \"code_hash\": ");
    r.append(code_hash);
    r.append(",\n  \"storage_items\": ");
    r.append(items.as_str());
    r.append("\n}");
    proof {
        reveal_strlit("{\n  \"trie_id\": ");
        reveal_strlit(",\n  \"code_hash\": ");
        reveal_strlit(",\n  \"storage_items\": ");
        reveal_strlit("\n}");
        reveal_strlit("{\n");
        reveal_strlit(",\n");
        reveal_strlit("  ");
        reveal_strlit(": ");
        reveal_strlit("trie_id");
        reveal_strlit("code_hash");
        reveal_strlit("storage_items");
        let f = projection_fields(trie_id@, code_hash@, storage_items);
        assert(f.drop_first().drop_first() =~= seq![f[2]]);
        assert(json_members(f.drop_first().drop_first()) == json_member(f[2].0, f[2].1));
        assert(json_members(f.drop_first()) == json_member(f[1].0, f[1].1) + ",\n"@
            + json_members(f.drop_first().drop_first()));
        assert(r@ =~= json_object(f));
    }
    r
}

} // verus!
