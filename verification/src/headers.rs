//! A case-insensitively queryable header set, the input of delivery
//! construction.

use vstd::prelude::*;

use crate::text::eq_ignore_case;
use crate::text::lower;

verus! {

/// The header set of one request. Names are matched without regard to
/// ASCII case; inserting a name again shadows the earlier entry.
pub struct Headers {
    entries: Vec<(String, String)>,
}

/// The value of the last entry whose lowercased name is `name`
/// (`name` itself is expected in lowercase).
pub open spec fn header_lookup(hs: Seq<(Seq<char>, Seq<char>)>, name: Seq<char>) -> Option<
    Seq<char>,
>
    decreases hs.len(),
{
    if hs.len() == 0 {
        None
    } else if lower(hs.last().0) == name {
        Some(hs.last().1)
    } else {
        header_lookup(hs.drop_last(), name)
    }
}

impl View for Headers {
    type V = Seq<(Seq<char>, Seq<char>)>;

    closed spec fn view(&self) -> Seq<(Seq<char>, Seq<char>)> {
        self.entries.deep_view()
    }
}

impl Headers {
    /// An empty header set.
    pub fn new() -> (r: Headers)
        ensures
            r@ == Seq::<(Seq<char>, Seq<char>)>::empty(),
    {
        let r = Headers { entries: Vec::new() };
        proof {
            assert(r@ =~= Seq::<(Seq<char>, Seq<char>)>::empty());
        }
        r
    }

    /// Records one header; a later entry for the same name wins.
    pub fn insert(&mut self, name: String, value: String)
        ensures
            final(self)@ == old(self)@.push((name@, value@)),
    {
        let ghost n = name@;
        let ghost v = value@;
        self.entries.push((name, value));
        proof {
            assert(self@ =~= old(self)@.push((n, v)));
        }
    }

    /// Case-insensitive lookup; `name` must already be lowercase.
    pub fn get(&self, name: &str) -> (r: Option<&String>)
        ensures
            match r {
                Some(v) => header_lookup(self@, lower(name@)) == Some(v@),
                None => header_lookup(self@, lower(name@)) is None,
            },
    {
        let n = self.entries.len();
        let mut i: usize = n;
        proof {
            assert(self@.take(n as int) =~= self@);
        }
        while i > 0
            invariant
                n == self.entries.len(),
                0 <= i <= n,
                self@.len() == n,
                header_lookup(self@, lower(name@)) == header_lookup(
                    self@.take(i as int),
                    lower(name@),
                ),
            decreases i,
        {
            i = i - 1;
            let entry = &self.entries[i];
            proof {
                assert(self@.take(i + 1).last() == self@[i as int]);
                assert(self@.take(i + 1).drop_last() =~= self@.take(i as int));
                assert(self@[i as int].0 == self.entries@[i as int].0@);
            }
            if eq_ignore_case(entry.0.as_str(), name) {
                return Some(&entry.1);
            }
        }
        proof {
            assert(self@.take(0) =~= Seq::<(Seq<char>, Seq<char>)>::empty());
        }
        None
    }
}

} // verus!
