//! Field rules shared by the request payloads: enumerations of accepted
//! words and duplicate-free lists of positive ids.

use vstd::prelude::*;
use vstd::string::*;
use crate::text::str_eq;

verus! {

/// Why a field was refused: a short machine code and a human message.
pub struct ValidationError {
    pub code: String,
    pub message: String,
}

/// `item` is one of the words of `list`.
pub open spec fn one_of(item: Seq<char>, list: Seq<&str>) -> bool {
    exists|i: int| 0 <= i < list.len() && (#[trigger] list[i])@ == item
}

/// A list of ids is accepted when every id is positive and none repeats.
pub open spec fn valid_id_seq(ids: Seq<i64>) -> bool {
    &&& forall|i: int| 0 <= i < ids.len() ==> ids[i] >= 1
    &&& forall|i: int, j: int| 0 <= i < j < ids.len() ==> ids[i] != ids[j]
}

/// The number of characters of `s` lies in `[min, max]`.
pub open spec fn len_within(s: Seq<char>, min: int, max: int) -> bool {
    min <= s.len() <= max
}

fn refusal(code: &str, message: &str) -> (e: ValidationError)
    ensures
        e.code@ == code@,
        e.message@ == message@,
{
    ValidationError { code: String::from_str(code), message: String::from_str(message) }
}

/// A string field whose character count must lie in `[min, max]`.
pub fn check_length(s: &str, min: usize, max: usize, message: &str) -> (r: Result<(), ValidationError>)
    ensures
        r is Ok <==> len_within(s@, min as int, max as int),
        r matches Err(e) ==> e.code@ == "length"@ && e.message@ == message@,
{
    let n = s.unicode_len();
    if min <= n && n <= max {
        Ok(())
    } else {
        Err(refusal("length", message))
    }
}

/// An integer field that must lie in `[min, max]`.
pub fn check_range(v: i64, min: i64, max: i64, message: &str) -> (r: Result<(), ValidationError>)
    ensures
        r is Ok <==> min <= v <= max,
        r matches Err(e) ==> e.code@ == "range"@ && e.message@ == message@,
{
    if min <= v && v <= max {
        Ok(())
    } else {
        Err(refusal("range", message))
    }
}

/// An id field: positive.
pub fn check_id(v: i64) -> (r: Result<(), ValidationError>)
    ensures
        r is Ok <==> v >= 1,
        r matches Err(e) ==> e.code@ == "range"@ && e.message@ == "invalid ID"@,
{
    check_range(v, 1, i64::MAX, "invalid ID")
}

/// Check whether `item` is one of the words in `list`.
pub fn oneof(item: &str, list: &Vec<&str>) -> (r: Result<(), ValidationError>)
    ensures
        r is Ok <==> one_of(item@, list@),
        r matches Err(e) ==> e.code@ == "oneof"@,
{
    let mut i: usize = 0;
    while i < list.len()
        invariant
            i <= list.len(),
            forall|k: int| 0 <= k < i ==> (#[trigger] list@[k])@ != item@,
        decreases list.len() - i,
    {
        if str_eq(list[i], item) {
            return Ok(());
        }
        i += 1;
    }
    let mut msg = String::from_str("must be one of ");
    let mut k: usize = 0;
    while k < list.len()
        decreases list.len() - k,
    {
        if k > 0 {
            msg.append(",");
        }
        msg.append(list[k]);
        k += 1;
    }
    Err(ValidationError { code: String::from_str("oneof"), message: msg })
}

pub fn validate_user_role(role: &str) -> (r: Result<(), ValidationError>)
    ensures
        r is Ok <==> (role@ == "admin"@ || role@ == "user"@),
        r matches Err(e) ==> e.code@ == "oneof"@,
{
    let roles = vec!["admin", "user"];
    let r = oneof(role, &roles);
    assert(roles@[0] == "admin" && roles@[1] == "user");
    r
}

pub fn validate_friend_status(status: &str) -> (r: Result<(), ValidationError>)
    ensures
        r is Ok <==> (status@ == "adding"@ || status@ == "accepted"@ || status@ == "deleted"@),
        r matches Err(e) ==> e.code@ == "oneof"@,
{
    let status_vec = vec!["adding", "accepted", "deleted"];
    let r = oneof(status, &status_vec);
    assert(status_vec@[0] == "adding" && status_vec@[1] == "accepted" && status_vec@[2] == "deleted");
    r
}

pub fn validate_room_category(category: &str) -> (r: Result<(), ValidationError>)
    ensures
        r is Ok <==> (category@ == "public"@ || category@ == "private"@ || category@ == "personal"@),
        r matches Err(e) ==> e.code@ == "oneof"@,
{
    let categories = vec!["public", "private", "personal"];
    let r = oneof(category, &categories);
    assert(categories@[0] == "public" && categories@[1] == "private" && categories@[2] == "personal");
    r
}

pub fn validate_room_rank(rank: &str) -> (r: Result<(), ValidationError>)
    ensures
        r is Ok <==> (rank@ == "owner"@ || rank@ == "manager"@ || rank@ == "member"@),
        r matches Err(e) ==> e.code@ == "oneof"@,
{
    let ranks = vec!["owner", "manager", "member"];
    let r = oneof(rank, &ranks);
    assert(ranks@[0] == "owner" && ranks@[1] == "manager" && ranks@[2] == "member");
    r
}

pub fn validate_message_kind(kind: &str) -> (r: Result<(), ValidationError>)
    ensures
        r is Ok <==> (kind@ == "text"@ || kind@ == "img"@),
        r matches Err(e) ==> e.code@ == "oneof"@,
{
    let kinds = vec!["text", "img"];
    let r = oneof(kind, &kinds);
    assert(kinds@[0] == "text" && kinds@[1] == "img");
    r
}

/// Every id is positive and no id repeats.
pub fn validate_id_vec(ids: &Vec<i64>) -> (r: Result<(), ValidationError>)
    ensures
        r is Ok <==> valid_id_seq(ids@),
        r matches Err(e) ==> e.code@ == "vec"@
            && e.message@ == "must be greater than 0 and not contain duplicate numbers"@,
{
    let mut i: usize = 0;
    while i < ids.len()
        invariant
            i <= ids.len(),
            valid_id_seq(ids@.subrange(0, i as int)),
        decreases ids.len() - i,
    {
        let id = ids[i];
        let mut fail = id < 1;
        let mut j: usize = 0;
        while j < i && !fail
            invariant
                i < ids.len(),
                j <= i,
                id == ids@[i as int],
                id < 1 ==> fail,
                !fail ==> forall|k: int| 0 <= k < j ==> ids@[k] != id,
                fail ==> (id < 1 || exists|k: int| 0 <= k < i && ids@[k] == id),
            decreases i - j,
        {
            if ids[j] == id {
                fail = true;
            }
            j += 1;
        }
        if fail {
            assert(!valid_id_seq(ids@)) by {
                if id >= 1 {
                    let k = choose|k: int| 0 <= k < i && ids@[k] == id;
                    assert(ids@[k] == ids@[i as int]);
                }
            }
            return Err(refusal("vec", "must be greater than 0 and not contain duplicate numbers"));
        }
        assert(valid_id_seq(ids@.subrange(0, i + 1))) by {
            let s = ids@.subrange(0, i + 1);
            assert forall|a: int, b: int| 0 <= a < b < s.len() implies s[a] != s[b] by {
                if b < i {
                    assert(ids@.subrange(0, i as int)[a] == s[a]);
                    assert(ids@.subrange(0, i as int)[b] == s[b]);
                }
            }
            assert forall|a: int| 0 <= a < s.len() implies s[a] >= 1 by {
                if a < i {
                    assert(ids@.subrange(0, i as int)[a] == s[a]);
                }
            }
        }
        i += 1;
    }
    assert(ids@.subrange(0, ids.len() as int) =~= ids@);
    Ok(())
}

} // verus!
