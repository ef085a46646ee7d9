//! The claims of a verified token and how a user's claims are read from them, as
//! `serde` reads a struct whose `id` field also answers to `sub` and holds a
//! [`FlexibleNumber`].

use vstd::prelude::*;
use crate::shared::serde_customs::{FlexibleNumber, flexible_number_of};

verus! {

/// The value of one claim: a text, an integer, or any other JSON value.
#[derive(Debug)]
pub enum ClaimValue {
    Text(String),
    Number(i64),
    Other,
}

/// What a claim's value is, in specifications.
pub enum ClaimData {
    Text(Seq<char>),
    Number(int),
    Other,
}

impl View for ClaimValue {
    type V = ClaimData;

    open spec fn view(&self) -> ClaimData {
        match self {
            ClaimValue::Text(t) => ClaimData::Text(t@),
            ClaimValue::Number(n) => ClaimData::Number(*n as int),
            ClaimValue::Other => ClaimData::Other,
        }
    }
}

/// The claims of a token, by name, in the order the token lists them. Names do not repeat:
/// they are the members of a JSON object.
#[derive(Debug)]
pub struct ClaimSet {
    pub members: Vec<(String, ClaimValue)>,
}

/// The claims as names and values.
pub open spec fn claims_view(members: Seq<(String, ClaimValue)>) -> Seq<(Seq<char>, ClaimData)> {
    members.map_values(|m: (String, ClaimValue)| (m.0@, m.1@))
}

impl View for ClaimSet {
    type V = Seq<(Seq<char>, ClaimData)>;

    open spec fn view(&self) -> Seq<(Seq<char>, ClaimData)> {
        claims_view(self.members@)
    }
}

/// The value of the first claim named `name`, if any.
pub open spec fn claim_lookup(claims: Seq<(Seq<char>, ClaimData)>, name: Seq<char>) -> Option<ClaimData>
    decreases claims.len(),
{
    if claims.len() == 0 {
        None
    } else if claims[0].0 == name {
        Some(claims[0].1)
    } else {
        claim_lookup(claims.drop_first(), name)
    }
}

/// A name no claim has is looked up as nothing.
pub proof fn lemma_absent_claim(claims: Seq<(Seq<char>, ClaimData)>, name: Seq<char>)
    requires
        forall|i: int| 0 <= i < claims.len() ==> claims[i].0 != name,
    ensures
        claim_lookup(claims, name) is None,
    decreases claims.len(),
{
    if claims.len() > 0 {
        assert forall|i: int| 0 <= i < claims.drop_first().len() implies claims.drop_first()[i].0 != name by {
            assert(claims.drop_first()[i] == claims[i + 1]);
        }
        lemma_absent_claim(claims.drop_first(), name);
    }
}

/// The text of the claim named `name`, if it is there and is a text.
pub open spec fn text_claim(claims: Seq<(Seq<char>, ClaimData)>, name: Seq<char>) -> Option<Seq<char>> {
    match claim_lookup(claims, name) {
        Some(ClaimData::Text(t)) => Some(t),
        _ => None,
    }
}

/// The user id the claims carry: the claim `id` or its alias `sub` (not both), either an
/// integer that fits an `i32` or a text that reads as one once trimmed.
pub open spec fn id_claim(claims: Seq<(Seq<char>, ClaimData)>) -> Option<i32> {
    let by_id = claim_lookup(claims, "id"@);
    let by_sub = claim_lookup(claims, "sub"@);
    if by_id is Some && by_sub is Some {
        None
    } else {
        let chosen = if by_id is Some {
            by_id
        } else {
            by_sub
        };
        match chosen {
            Some(ClaimData::Text(t)) => match flexible_number_of(t) {
                Ok(v) => Some(v),
                Err(_) => None,
            },
            Some(ClaimData::Number(n)) => if i32::MIN <= n <= i32::MAX {
                Some(n as i32)
            } else {
                None
            },
            _ => None,
        }
    }
}

/// The user a token's claims name: the id, the username and the email, where all three
/// are there and read (as `serde` reads them into a struct of those fields).
pub open spec fn user_claims_of(claims: Seq<(Seq<char>, ClaimData)>) -> Option<(i32, Seq<char>, Seq<char>)> {
    match (id_claim(claims), text_claim(claims, "username"@), text_claim(claims, "email"@)) {
        (Some(i), Some(u), Some(e)) => Some((i, u, e)),
        _ => None,
    }
}

/// The claim named `name`, found by a scan of the members.
pub fn find_claim<'a>(members: &'a Vec<(String, ClaimValue)>, name: &str) -> (res: Option<&'a ClaimValue>)
    ensures
        match res {
            Some(v) => claim_lookup(claims_view(members@), name@) == Some(v@),
            None => claim_lookup(claims_view(members@), name@) is None,
        },
{
    let wanted = String::from_str(name);
    let ghost all = claims_view(members@);
    let mut i: usize = 0;
    assert(all.subrange(0, all.len() as int) =~= all);
    while i < members.len()
        invariant
            i <= members@.len(),
            all == claims_view(members@),
            wanted@ == name@,
            claim_lookup(all, name@) == claim_lookup(all.subrange(i as int, all.len() as int), name@),
        decreases members@.len() - i,
    {
        let ghost rest = all.subrange(i as int, all.len() as int);
        assert(rest.drop_first() =~= all.subrange(i + 1, all.len() as int));
        assert(rest[0] == (members@[i as int].0@, members@[i as int].1@));
        if members[i].0 == wanted {
            return Some(&members[i].1);
        }
        i = i + 1;
    }
    None
}

/// The text of the claim named `name`, if it is there and is a text.
pub fn find_text_claim(members: &Vec<(String, ClaimValue)>, name: &str) -> (res: Option<String>)
    ensures
        match res {
            Some(t) => text_claim(claims_view(members@), name@) == Some(t@),
            None => text_claim(claims_view(members@), name@) is None,
        },
{
    match find_claim(members, name) {
        Some(ClaimValue::Text(t)) => Some(t.clone()),
        _ => None,
    }
}

/// Reads the user id of the claims: `id` or `sub`, not both, as a [`FlexibleNumber`]
/// (an integer in range, or a text holding one).
pub fn find_id_claim(members: &Vec<(String, ClaimValue)>) -> (res: Option<FlexibleNumber>)
    ensures
        match res {
            Some(n) => id_claim(claims_view(members@)) == Some(n.0),
            None => id_claim(claims_view(members@)) is None,
        },
{
    proof {
        reveal_strlit("id");
        reveal_strlit("sub");
    }
    let by_id = find_claim(members, "id");
    let by_sub = find_claim(members, "sub");
    let chosen = match (by_id, by_sub) {
        (Some(_), Some(_)) => return None,
        (Some(v), None) => v,
        (None, Some(v)) => v,
        (None, None) => return None,
    };
    match chosen {
        ClaimValue::Text(t) => match FlexibleNumber::from_text(t.as_str()) {
            Ok(n) => Some(n),
            Err(_) => None,
        },
        ClaimValue::Number(n) => if i32::MIN as i64 <= *n && *n <= i32::MAX as i64 {
            Some(FlexibleNumber(*n as i32))
        } else {
            None
        },
        ClaimValue::Other => None,
    }
}

} // verus!
