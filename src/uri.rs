//! Metadata URIs: a base prefix followed by a per-item suffix.

use vstd::prelude::*;

verus! {

/// The decimal digit `d` as a character.
pub open spec fn digit_char(d: nat) -> char {
    seq!['0', '1', '2', '3', '4', '5', '6', '7', '8', '9'][d as int]
}

/// The decimal representation of `n`, without leading zeros.
pub open spec fn decimal(n: nat) -> Seq<char>
    decreases n,
{
    if n < 10 {
        seq![digit_char(n)]
    } else {
        decimal(n / 10) + seq![digit_char(n % 10)]
    }
}

fn digit_str(d: u64) -> (r: &'static str)
    requires
        d < 10,
    ensures
        r@ == seq![digit_char(d as nat)],
{
    proof {
        reveal_strlit("0");
        reveal_strlit("1");
        reveal_strlit("2");
        reveal_strlit("3");
        reveal_strlit("4");
        reveal_strlit("5");
        reveal_strlit("6");
        reveal_strlit("7");
        reveal_strlit("8");
        reveal_strlit("9");
    }
    if d == 0 {
        "0"
    } else if d == 1 {
        "1"
    } else if d == 2 {
        "2"
    } else if d == 3 {
        "3"
    } else if d == 4 {
        "4"
    } else if d == 5 {
        "5"
    } else if d == 6 {
        "6"
    } else if d == 7 {
        "7"
    } else if d == 8 {
        "8"
    } else {
        "9"
    }
}

/// The decimal representation of `n`.
pub fn decimal_string(n: u64) -> (r: String)
    ensures
        r@ == decimal(n as nat),
    decreases n,
{
    if n < 10 {
        String::from_str(digit_str(n))
    } else {
        let head = decimal_string(n / 10);
        head.concat(digit_str(n % 10))
    }
}

/// The URI of the collection token: the base followed by `collection.json`.
pub open spec fn collection_uri(base: Seq<char>) -> Seq<char> {
    base + "collection.json"@
}

/// The URI of member token `token_id`: the base, the id in decimal, `.json`.
pub open spec fn member_uri(base: Seq<char>, token_id: u64) -> Seq<char> {
    base + decimal(token_id as nat) + ".json"@
}

/// Builds `collection_uri(base)`.
pub fn collection_uri_string(base: &String) -> (r: String)
    ensures
        r@ == collection_uri(base@),
{
    base.clone().concat("collection.json")
}

/// Builds `member_uri(base, token_id)`.
pub fn member_uri_string(base: &String, token_id: u64) -> (r: String)
    ensures
        r@ == member_uri(base@, token_id),
{
    let id = decimal_string(token_id);
    let r = base.clone().concat(id.as_str()).concat(".json");
    r
}

} // verus!
