//! Spec-level views of string collections, shared by the command builders.

use vstd::prelude::*;

use crate::decimal::dec_str;
use crate::decimal::u16_to_string;

verus! {

/// The character sequences of a list of strings.
pub open spec fn strings_view(v: Seq<String>) -> Seq<Seq<char>> {
    Seq::new(v.len(), |i: int| v[i]@)
}

/// The character sequences of a list of key-value pairs.
pub open spec fn pairs_view(v: Seq<(String, String)>) -> Seq<(Seq<char>, Seq<char>)> {
    Seq::new(v.len(), |i: int| (v[i].0@, v[i].1@))
}

/// The value bound to `key`, scanning from the end so that a later binding
/// of the same key wins, as an insertion into a map would.
pub open spec fn pairs_lookup(v: Seq<(Seq<char>, Seq<char>)>, key: Seq<char>) -> Option<Seq<char>>
    decreases v.len(),
{
    if v.len() == 0 {
        None
    } else if v.last().0 == key {
        Some(v.last().1)
    } else {
        pairs_lookup(v.drop_last(), key)
    }
}

/// Renders `key=value`.
pub fn kv_eq_string(k: &String, v: &String) -> (s: String)
    ensures
        s@ == k@ + "="@ + v@,
{
    let mut s = k.clone();
    s.append("=");
    s.append(v.as_str());
    proof {
        assert(s@ =~= k@ + "="@ + v@);
    }
    s
}

/// Renders `a:b` for two port numbers, as a container port mapping.
pub fn port_pair_string(a: u16, b: u16) -> (s: String)
    ensures
        s@ == dec_str(a as int) + ":"@ + dec_str(b as int),
{
    let mut s = u16_to_string(a);
    s.append(":");
    s.append(u16_to_string(b).as_str());
    proof {
        assert(s@ =~= dec_str(a as int) + ":"@ + dec_str(b as int));
    }
    s
}

/// Renders `a:b` for two path strings, as a container volume mapping.
pub fn path_pair_string(a: &String, b: &String) -> (s: String)
    ensures
        s@ == a@ + ":"@ + b@,
{
    let mut s = a.clone();
    s.append(":");
    s.append(b.as_str());
    proof {
        assert(s@ =~= a@ + ":"@ + b@);
    }
    s
}

/// Renders `0.0.0.0:port`.
pub fn any_host_port_string(port: u16) -> (s: String)
    ensures
        s@ == "0.0.0.0:"@ + dec_str(port as int),
{
    let mut s = "0.0.0.0:".to_owned();
    s.append(u16_to_string(port).as_str());
    proof {
        assert(s@ =~= "0.0.0.0:"@ + dec_str(port as int));
    }
    s
}

/// Appending a string appends its text to the view.
pub proof fn lemma_strings_view_push(s: Seq<String>, x: String)
    ensures
        strings_view(s.push(x)) == strings_view(s).push(x@),
{
    assert(strings_view(s.push(x)) =~= strings_view(s).push(x@));
}

/// Appending a pair appends its texts to the view.
pub proof fn lemma_pairs_view_push(s: Seq<(String, String)>, x: (String, String))
    ensures
        pairs_view(s.push(x)) == pairs_view(s).push((x.0@, x.1@)),
{
    assert(pairs_view(s.push(x)) =~= pairs_view(s).push((x.0@, x.1@)));
}

/// Appends one argument, tracking the view.
pub fn push_str_arg(args: &mut Vec<String>, s: String)
    ensures
        strings_view(final(args)@) == strings_view(old(args)@).push(s@),
{
    let ghost before = args@;
    args.push(s);
    proof {
        lemma_strings_view_push(before, s);
    }
}

/// Appends a lone flag when the condition holds, tracking the view.
pub fn push_flag_if(args: &mut Vec<String>, cond: bool, flag: &str)
    ensures
        strings_view(final(args)@) == strings_view(old(args)@) + (if cond {
            seq![flag@]
        } else {
            Seq::<Seq<char>>::empty()
        }),
{
    if cond {
        push_str_arg(args, flag.to_owned());
        proof {
            assert(strings_view(args@) =~= strings_view(old(args)@) + seq![flag@]);
        }
    } else {
        proof {
            assert(strings_view(args@) =~= strings_view(old(args)@)
                + Seq::<Seq<char>>::empty());
        }
    }
}

/// Appends a key-value argument pair when the value is present, tracking the
/// view.
pub fn push_opt_arg(args: &mut Vec<String>, key: &str, value: &Option<String>)
    ensures
        strings_view(final(args)@) == strings_view(old(args)@) + (match value {
            Some(v) => seq![key@, v@],
            None => Seq::<Seq<char>>::empty(),
        }),
{
    match value {
        Some(v) => {
            push_str_arg(args, key.to_owned());
            push_str_arg(args, v.clone());
            proof {
                assert(strings_view(args@) =~= strings_view(old(args)@) + seq![key@, v@]);
            }
        },
        None => {
            proof {
                assert(strings_view(args@) =~= strings_view(old(args)@)
                    + Seq::<Seq<char>>::empty());
            }
        },
    }
}

} // verus!
