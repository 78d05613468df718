//! The rule matcher: an ordered list of substring rules evaluated
//! first-match-wins over an optional extracted signal.

use vstd::prelude::*;

verus! {

/// `needle` occurs in `hay` as a contiguous run starting at index `i`.
pub open spec fn occurs_at(hay: Seq<char>, needle: Seq<char>, i: int) -> bool {
    &&& 0 <= i
    &&& i + needle.len() <= hay.len()
    &&& hay.subrange(i, i + needle.len()) == needle
}

/// `needle` occurs somewhere in `hay`.
pub open spec fn contains_chars(hay: Seq<char>, needle: Seq<char>) -> bool {
    exists|i: int| occurs_at(hay, needle, i)
}

/// Checks whether `needle` occurs in `hay` starting exactly at index `i`.
fn occurs_here(hay: &str, needle: &str, i: usize, hay_len: usize, needle_len: usize) -> (r: bool)
    requires
        hay_len == hay@.len(),
        needle_len == needle@.len(),
        i + needle_len <= hay_len,
    ensures
        r == occurs_at(hay@, needle@, i as int),
{
    let mut j: usize = 0;
    while j < needle_len
        invariant
            hay_len == hay@.len(),
            needle_len == needle@.len(),
            i + needle_len <= hay_len,
            j <= needle_len,
            forall|k: int| 0 <= k < j ==> hay@[i + k] == needle@[k],
        decreases needle_len - j,
    {
        if hay.get_char(i + j) != needle.get_char(j) {
            proof {
                let sub = hay@.subrange(i as int, i + needle@.len());
                assert(sub[j as int] == hay@[i + j]);
            }
            return false;
        }
        j += 1;
    }
    proof {
        assert(hay@.subrange(i as int, i + needle@.len()) =~= needle@);
    }
    true
}

/// Substring search: whether `needle` occurs anywhere in `hay`.
pub fn str_contains_str(hay: &str, needle: &str) -> (r: bool)
    ensures
        r == contains_chars(hay@, needle@),
{
    let hay_len = hay.unicode_len();
    let needle_len = needle.unicode_len();
    if needle_len > hay_len {
        return false;
    }
    if needle_len == 0 {
        proof {
            assert(hay@.subrange(0, 0) =~= needle@);
            assert(occurs_at(hay@, needle@, 0));
        }
        return true;
    }
    let end = hay_len - needle_len;
    let mut i: usize = 0;
    while i <= end
        invariant
            hay_len == hay@.len(),
            needle_len == needle@.len(),
            1 <= needle_len <= hay_len,
            end == hay_len - needle_len,
            i <= end + 1,
            forall|k: int| 0 <= k < i ==> !occurs_at(hay@, needle@, k),
        decreases end + 1 - i,
    {
        if occurs_here(hay, needle, i, hay_len, needle_len) {
            return true;
        }
        i += 1;
    }
    proof {
        assert forall|k: int| !occurs_at(hay@, needle@, k) by {
            if occurs_at(hay@, needle@, k) {
                assert(k + needle@.len() <= hay@.len());
                assert(k < i);
            }
        }
    }
    false
}

/// A single routing rule: if the signal contains `needle` as a substring,
/// the request is routed to `route_id`.
pub struct Rule {
    pub needle: String,
    pub route_id: String,
}

/// The route the ordered rule list assigns to a signal: the first rule whose
/// needle occurs in the signal wins; an absent signal, or one no rule
/// matches, gets the default route.
pub open spec fn match_seq(
    signal: Option<Seq<char>>,
    rule_list: Seq<Rule>,
    default_route: Seq<char>,
) -> Seq<char>
    decreases rule_list.len(),
{
    match signal {
        Option::None => default_route,
        Option::Some(s) => {
            if rule_list.len() == 0 {
                default_route
            } else if contains_chars(s, rule_list[0].needle@) {
                rule_list[0].route_id@
            } else {
                match_seq(signal, rule_list.skip(1), default_route)
            }
        },
    }
}

/// First-match-wins evaluation of the ordered rule list over a signal.
pub fn match_rules(signal: &Option<String>, rule_list: &Vec<Rule>, default_route: &String) -> (r:
    String)
    ensures
        r@ == match_seq(signal.deep_view(), rule_list@, default_route@),
{
    let signal_str: &String = match signal {
        Option::Some(s) => s,
        Option::None => {
            return default_route.clone();
        },
    };
    proof {
        assert(rule_list@.skip(0) =~= rule_list@);
    }
    let mut i: usize = 0;
    while i < rule_list.len()
        invariant
            i <= rule_list@.len(),
            signal.deep_view() == Option::Some(signal_str@),
            match_seq(signal.deep_view(), rule_list@, default_route@) == match_seq(
                signal.deep_view(),
                rule_list@.skip(i as int),
                default_route@,
            ),
        decreases rule_list@.len() - i,
    {
        let rule = &rule_list[i];
        if str_contains_str(signal_str.as_str(), rule.needle.as_str()) {
            assert(rule_list@.skip(i as int)[0] == rule_list@[i as int]);
            return rule.route_id.clone();
        }
        proof {
            assert(rule_list@.skip(i as int)[0] == rule_list@[i as int]);
            assert(rule_list@.skip(i as int).skip(1) =~= rule_list@.skip(i + 1));
        }
        i += 1;
    }
    proof {
        assert(rule_list@.skip(i as int).len() == 0);
    }
    default_route.clone()
}

} // verus!
