use vstd::prelude::*;
use vstd::string::StringSliceAdditionalSpecFns;
use crate::session::{Abort, Iteration, LinkState, Lookup};

verus! {

/// `part` stands in `name` starting at byte `i`.
pub open spec fn occurs_at(name: Seq<u8>, part: Seq<u8>, i: int) -> bool {
    0 <= i && i + part.len() <= name.len() && name.subrange(i, i + part.len()) == part
}

/// `part` stands somewhere in `name`, as a run of bytes.
pub open spec fn contains_bytes(name: Seq<u8>, part: Seq<u8>) -> bool {
    exists|i: int| occurs_at(name, part, i)
}

/// Tells whether the text `part` occurs in `name`. Both are UTF-8, so a run of
/// bytes that matches is a run of characters that matches.
pub fn name_contains(name: &str, part: &str) -> (r: bool)
    ensures
        r == contains_bytes(name.spec_bytes(), part.spec_bytes()),
{
    let h = name.as_bytes();
    let p = part.as_bytes();
    let n = h.len();
    let m = p.len();
    if m > n {
        assert forall|i: int| !occurs_at(h@, p@, i) by {}
        return false;
    }
    let mut i: usize = 0;
    while i <= n - m
        invariant
            h@ == name.spec_bytes(),
            p@ == part.spec_bytes(),
            n == h@.len(),
            m == p@.len(),
            m <= n,
            i <= n - m + 1,
            forall|k: int| 0 <= k < i ==> !occurs_at(h@, p@, k),
        decreases n - m + 1 - i,
    {
        let mut j: usize = 0;
        while j < m && h[i + j] == p[j]
            invariant
                h@ == name.spec_bytes(),
                p@ == part.spec_bytes(),
                n == h@.len(),
                m == p@.len(),
                i + m <= n,
                j <= m,
                forall|k: int| 0 <= k < j ==> h@[i + k] == p@[k],
            decreases m - j,
        {
            j = j + 1;
        }
        if j == m {
            assert(h@.subrange(i as int, i + m) =~= p@);
            assert(occurs_at(h@, p@, i as int));
            return true;
        }
        assert(h@.subrange(i as int, i + m)[j as int] != p@[j as int]);
        i = i + 1;
    }
    assert forall|k: int| !occurs_at(h@, p@, k) by {
        if 0 <= k && k + m <= n {
            assert(k < i);
        }
    }
    false
}

/// What the lookup of the sink has learned so far from the server's list of
/// sinks.
pub struct SinkSearch {
    /// Index of the first listed sink whose name matched.
    pub found: Option<u32>,
    /// The server has sent the whole list, or failed to.
    pub listed: bool,
}

/// The decision of one pump of the lookup: the event loop and the connection
/// are checked first, then a sink that matched is taken, and a list that ended
/// without one gives up.
pub open spec fn lookup_spec(s: SinkSearch, it: Iteration, context: LinkState) -> Lookup {
    if it != Iteration::Success {
        Lookup::Abort(Abort::Iteration)
    } else if context == LinkState::Failed || context == LinkState::Terminated {
        Lookup::Abort(Abort::Connection)
    } else if s.found is Some {
        Lookup::Use(s.found->0)
    } else if s.listed {
        Lookup::Abort(Abort::NoSink)
    } else {
        Lookup::Again
    }
}

impl SinkSearch {
    /// A lookup that has heard nothing yet.
    pub fn new() -> (r: SinkSearch)
        ensures
            r.found is None,
            !r.listed,
    {
        SinkSearch { found: None, listed: false }
    }

    /// Takes one listed sink. Returns whether its name holds `part`; the first
    /// such sink is kept, later ones leave the choice as it was.
    pub fn on_sink(&mut self, index: u32, name: &str, part: &str) -> (matched: bool)
        ensures
            matched == contains_bytes(name.spec_bytes(), part.spec_bytes()),
            final(self).listed == old(self).listed,
            final(self).found == (if old(self).found is None && matched {
                Some(index)
            } else {
                old(self).found
            }),
    {
        let matched = name_contains(name, part);
        if matched && self.found.is_none() {
            self.found = Some(index);
        }
        matched
    }

    /// Takes the end of the list, whether it ended normally or with an error.
    pub fn on_list_end(&mut self)
        ensures
            final(self).listed,
            final(self).found == old(self).found,
    {
        self.listed = true;
    }

    /// Decides after a pump of the event loop, once the sinks listed during
    /// that pump have been taken.
    pub fn step(&self, it: Iteration, context: LinkState) -> (r: Lookup)
        ensures
            r == lookup_spec(*self, it, context),
    {
        match it {
            Iteration::Success => {},
            _ => return Lookup::Abort(Abort::Iteration),
        }
        match context {
            LinkState::Failed | LinkState::Terminated => return Lookup::Abort(Abort::Connection),
            _ => {},
        }
        match self.found {
            Some(index) => Lookup::Use(index),
            None => if self.listed {
                Lookup::Abort(Abort::NoSink)
            } else {
                Lookup::Again
            },
        }
    }
}

} // verus!
