//! The external-process launch protocol.
//!
//! Candidate mirrors are first narrowed to a whitelist of known-compatible
//! host substrings; the survivors are then attempted in list order, one
//! external process each, stopping at the first success. The process spawn
//! itself happens outside this crate: a `LaunchSession` hands out the next
//! mirror to attempt and absorbs each attempt's outcome.

use vstd::prelude::*;

verus! {

/// Which external program a launch drives.
#[derive(Clone, Copy, PartialEq, Eq, Structural, Debug)]
pub enum LaunchKind {
    /// The plain viewer.
    Viewer,
    /// The synchronized viewer.
    SyncViewer,
    /// The downloader.
    Downloader,
}

/// The needle occurs contiguously inside the haystack.
pub open spec fn is_substring(h: Seq<char>, n: Seq<char>) -> bool {
    exists|k: int| 0 <= k <= h.len() - n.len() && #[trigger] h.subrange(k, k + n.len()) == n
}

/// Whether the needle occurs contiguously inside the haystack.
pub fn contains_substring(h: &str, n: &str) -> (r: bool)
    ensures
        r == is_substring(h@, n@),
{
    let hl = h.unicode_len();
    let nl = n.unicode_len();
    if nl > hl {
        return false;
    }
    let mut k: usize = 0;
    while k <= hl - nl
        invariant
            hl == h@.len(),
            nl == n@.len(),
            nl <= hl,
            k <= hl - nl + 1,
            forall|q: int| 0 <= q < k ==> #[trigger] h@.subrange(q, q + n@.len()) != n@,
        decreases hl - nl - k + 1,
    {
        let mut t: usize = 0;
        let mut hit = true;
        while t < nl && hit
            invariant
                hl == h@.len(),
                nl == n@.len(),
                k + nl <= hl,
                t <= nl,
                hit ==> forall|q: int| 0 <= q < t ==> h@[k + q] == n@[q],
                !hit ==> h@.subrange(k as int, k + n@.len()) != n@,
            decreases nl - t,
        {
            if h.get_char(k + t) != n.get_char(t) {
                hit = false;
                proof {
                    assert(h@.subrange(k as int, k + n@.len())[t as int] != n@[t as int]);
                }
            }
            t = t + 1;
        }
        if hit {
            proof {
                assert(h@.subrange(k as int, k + n@.len()) =~= n@);
            }
            return true;
        }
        proof {
            // a mismatch needs at least one needle character
            if n@.len() == 0 {
                assert(h@.subrange(k as int, k as int) =~= n@);
            }
        }
        k = k + 1;
    }
    proof {
        assert forall|q: int| 0 <= q <= h@.len() - n@.len() implies #[trigger] h@.subrange(
            q,
            q + n@.len(),
        ) != n@ by {}
    }
    false
}

/// The mirror names one of the whitelisted host substrings.
pub open spec fn mirror_whitelisted(m: Seq<char>, wl: Seq<Seq<char>>) -> bool {
    exists|k: int| 0 <= k < wl.len() && is_substring(m, wl[k])
}

/// Whether the mirror names one of the whitelisted host substrings.
pub fn is_whitelisted(m: &String, whitelist: &Vec<String>) -> (r: bool)
    ensures
        r == mirror_whitelisted(m@, whitelist.deep_view()),
{
    let mut k: usize = 0;
    while k < whitelist.len()
        invariant
            k <= whitelist@.len(),
            forall|q: int| 0 <= q < k ==> !is_substring(m@, whitelist.deep_view()[q]),
        decreases whitelist@.len() - k,
    {
        if contains_substring(m.as_str(), whitelist[k].as_str()) {
            proof {
                assert(is_substring(m@, whitelist.deep_view()[k as int]));
            }
            return true;
        }
        k = k + 1;
    }
    false
}

/// Keeps, in order, exactly the mirrors that the whitelist accepts.
pub fn filter_whitelisted(mirrors: &Vec<String>, whitelist: &Vec<String>) -> (r: Vec<String>)
    ensures
        r.deep_view() == mirrors.deep_view().filter(
            |m: Seq<char>| mirror_whitelisted(m, whitelist.deep_view()),
        ),
{
    let ghost pred = |m: Seq<char>| mirror_whitelisted(m, whitelist.deep_view());
    let mut r: Vec<String> = Vec::new();
    let mut i: usize = 0;
    while i < mirrors.len()
        invariant
            i <= mirrors@.len(),
            r.deep_view() =~= mirrors.deep_view().take(i as int).filter(pred),
            pred == (|m: Seq<char>| mirror_whitelisted(m, whitelist.deep_view())),
        decreases mirrors@.len() - i,
    {
        let ghost prefix = mirrors.deep_view().take(i as int);
        let ghost extended = mirrors.deep_view().take(i + 1);
        proof {
            assert(extended.drop_last() =~= prefix);
            assert(extended.last() == mirrors.deep_view()[i as int]);
            reveal_with_fuel(Seq::filter, 2);
        }
        let ghost before = r.deep_view();
        if is_whitelisted(&mirrors[i], whitelist) {
            r.push(mirrors[i].clone());
            proof {
                assert(r.deep_view() =~= before.push(mirrors.deep_view()[i as int]));
            }
        }
        i = i + 1;
    }
    proof {
        assert(mirrors.deep_view().take(mirrors.deep_view().len() as int) =~= mirrors.deep_view());
    }
    r
}

/// The stock whitelist: the host substrings known to work with the
/// external programs.
pub fn default_whitelist() -> (r: Vec<String>)
    ensures
        r.deep_view() =~= seq!["mp4upload"@, "ok.ru"@, "my.mail.ru"@],
{
    let mut r: Vec<String> = Vec::new();
    r.push(String::from_str("mp4upload"));
    r.push(String::from_str("ok.ru"));
    r.push(String::from_str("my.mail.ru"));
    r
}

/// One launch attempt sequence over an already-whitelisted mirror list.
///
/// Attempts run strictly in list order; `record(true)` resolves the
/// session successfully without touching the remaining mirrors, and a
/// session over an empty list is a failure before any attempt is made.
pub struct LaunchSession {
    /// The mirrors to attempt, in order.
    pub mirrors: Vec<String>,
    /// How many attempts have already run.
    pub attempted: usize,
    /// `Some(true)` after a successful attempt, `Some(false)` once every
    /// mirror has failed (or there was none), `None` while undecided.
    pub outcome: Option<bool>,
}

/// The session bookkeeping is consistent with its mirror list.
pub open spec fn session_wf(s: LaunchSession) -> bool {
    &&& s.attempted <= s.mirrors@.len()
    &&& (s.outcome matches Option::None ==> s.attempted < s.mirrors@.len())
    &&& (s.outcome == Option::Some(false) ==> s.attempted == s.mirrors@.len())
}

impl LaunchSession {
    /// Opens a session over the whitelisted mirrors. An empty list is
    /// already a failure, with no attempt owed.
    pub fn new(mirrors: Vec<String>) -> (s: Self)
        ensures
            session_wf(s),
            s.mirrors == mirrors,
            s.attempted == 0,
            s.outcome == if mirrors@.len() == 0 {
                Option::Some(false)
            } else {
                Option::<bool>::None
            },
    {
        let empty = mirrors.len() == 0;
        LaunchSession {
            mirrors,
            attempted: 0,
            outcome: if empty {
                Option::Some(false)
            } else {
                Option::None
            },
        }
    }

    /// The mirror the next attempt must use, or nothing once the session
    /// is decided.
    pub fn next_attempt(&self) -> (r: Option<&String>)
        requires
            session_wf(*self),
        ensures
            match r {
                Option::Some(m) => {
                    let at = self.attempted as int;
                    self.outcome is None && m@ == self.mirrors.deep_view()[at]
                },
                Option::None => self.outcome is Some,
            },
    {
        match self.outcome {
            Option::Some(_) => Option::None,
            Option::None => Option::Some(&self.mirrors[self.attempted]),
        }
    }

    /// Absorbs the outcome of the attempt on the mirror `next_attempt`
    /// last handed out: success decides the session at once, failure moves
    /// to the next mirror, and failure of the last mirror decides the
    /// session negatively.
    pub fn record(&mut self, success: bool)
        requires
            session_wf(*old(self)),
            old(self).outcome is None,
        ensures
            session_wf(*final(self)),
            final(self).mirrors == old(self).mirrors,
            final(self).attempted == old(self).attempted + 1,
            final(self).outcome == if success {
                Option::Some(true)
            } else if old(self).attempted + 1 == old(self).mirrors@.len() {
                Option::Some(false)
            } else {
                Option::<bool>::None
            },
    {
        let total = self.mirrors.len();
        self.attempted = self.attempted + 1;
        if success {
            self.outcome = Option::Some(true);
        } else if self.attempted == total {
            self.outcome = Option::Some(false);
        }
    }

    /// The session's verdict, once every owed attempt has run.
    pub fn finished(&self) -> (r: Option<bool>)
        ensures
            r == self.outcome,
    {
        self.outcome
    }
}

} // verus!
