use vstd::prelude::*;
use crate::matching::{name_matches, name_matches_spec, normalize, normalized};

verus! {

/// How many visited entries pass between two looks at the cancellation flag.
pub const POLL_INTERVAL: usize = 1000;

/// What a traversal reports.
#[derive(Debug, Clone, PartialEq, Eq)]
pub enum MatchEvent {
    FolderFound(String),
    SkipFolderFound(String),
    NoFoldersFound(String),
}

/// The shared "keep searching" flag.
pub struct SearchControl {
    pub should_continue: bool,
}

impl SearchControl {
    pub fn new() -> (r: Self)
        ensures
            r.should_continue,
    {
        SearchControl { should_continue: true }
    }

    /// Asks the running search, if any, to stop.
    pub fn stop(&mut self)
        ensures
            !final(self).should_continue,
    {
        self.should_continue = false;
    }

    pub fn continue_search(&self) -> (r: bool)
        ensures
            r == self.should_continue,
    {
        self.should_continue
    }

    pub fn reset(&mut self)
        ensures
            final(self).should_continue,
    {
        self.should_continue = true;
    }
}

/// The arguments of one search.
pub struct SearchRequest {
    pub root_path: String,
    pub target_name: String,
    pub skip_names: Vec<String>,
    pub recurse_into_matches: bool,
    pub fuzzy: bool,
    pub case_sensitive: bool,
    /// Whether a pruned skip-listed directory is reported.
    pub report_skipped: bool,
}

/// One entry handed over by the directory walk.
#[derive(Debug, Clone, PartialEq, Eq)]
pub enum WalkEntry {
    /// The walk could not read this entry: it is treated as absent.
    Unreadable,
    File,
    Dir { name: String, path: String },
}

/// What to do with the entry just visited.
#[derive(Debug, Clone, PartialEq, Eq)]
pub struct Step {
    pub event: Option<MatchEvent>,
    /// Do not descend into the entry.
    pub prune: bool,
}

pub open spec fn names_view(v: Seq<String>) -> Seq<Seq<char>> {
    v.map_values(|s: String| s@)
}

pub open spec fn normalized_all(v: Seq<String>, case_sensitive: bool) -> Seq<Seq<char>> {
    v.map_values(|s: String| normalized(s@, case_sensitive))
}

pub open spec fn listed(names: Seq<Seq<char>>, n: Seq<char>) -> bool {
    exists|i: int| 0 <= i < names.len() && names[i] == n
}

pub open spec fn has_found(events: Seq<MatchEvent>) -> bool {
    exists|i: int| 0 <= i < events.len() && events[i] is FolderFound
}

/// Whether matches are descended into: never when the target itself is skip-listed.
pub open spec fn effective_recurse(req: SearchRequest) -> bool {
    req.recurse_into_matches && !listed(
        normalized_all(req.skip_names@, req.case_sensitive),
        normalized(req.target_name@, req.case_sensitive),
    )
}

/// The state of one traversal.
pub struct Traversal {
    pub root: String,
    pub target: String,
    pub skips: Vec<String>,
    pub recurse: bool,
    pub fuzzy: bool,
    pub case_sensitive: bool,
    pub report_skipped: bool,
    pub found_any: bool,
    pub since_poll: usize,
    /// The events reported so far.
    pub events: Ghost<Seq<MatchEvent>>,
}

impl Traversal {
    pub open spec fn wf(&self) -> bool {
        &&& self.since_poll < POLL_INTERVAL
        &&& self.found_any == has_found(self.events@)
    }

    /// The traversal that `req` starts, before any entry is visited.
    pub open spec fn started_from(&self, req: SearchRequest) -> bool {
        &&& self.root == req.root_path
        &&& self.target@ == normalized(req.target_name@, req.case_sensitive)
        &&& names_view(self.skips@) == normalized_all(req.skip_names@, req.case_sensitive)
        &&& self.recurse == effective_recurse(req)
        &&& self.fuzzy == req.fuzzy
        &&& self.case_sensitive == req.case_sensitive
        &&& self.report_skipped == req.report_skipped
        &&& !self.found_any
        &&& self.since_poll == 0
        &&& self.events@ == Seq::<MatchEvent>::empty()
    }

    /// The decision for a directory whose normalized name is `name`.
    pub open spec fn dir_step(&self, name: Seq<char>, path: String) -> Step {
        if listed(names_view(self.skips@), name) {
            Step {
                event: if self.report_skipped {
                    Some(MatchEvent::SkipFolderFound(path))
                } else {
                    None
                },
                prune: true,
            }
        } else if name_matches_spec(name, self.target@, self.fuzzy) {
            Step { event: Some(MatchEvent::FolderFound(path)), prune: !self.recurse }
        } else {
            Step { event: None, prune: false }
        }
    }

    pub open spec fn next_since_poll(&self) -> usize {
        if self.since_poll + 1 == POLL_INTERVAL {
            0
        } else {
            (self.since_poll + 1) as usize
        }
    }

    pub open spec fn events_after(&self, step: Step) -> Seq<MatchEvent> {
        match step.event {
            Some(e) => self.events@.push(e),
            None => self.events@,
        }
    }

    /// Starts a traversal: resets the flag and normalizes the names once.
    pub fn start(req: &SearchRequest, control: &mut SearchControl) -> (r: Traversal)
        ensures
            final(control).should_continue,
            r.wf(),
            r.started_from(*req),
    {
        control.reset();
        let target = normalize(&req.target_name, req.case_sensitive);
        let mut skips: Vec<String> = Vec::new();
        let mut listed_target = false;
        let mut i: usize = 0;
        while i < req.skip_names.len()
            invariant
                i <= req.skip_names@.len(),
                target@ == normalized(req.target_name@, req.case_sensitive),
                names_view(skips@) == normalized_all(
                    req.skip_names@.subrange(0, i as int),
                    req.case_sensitive,
                ),
                listed_target == listed(names_view(skips@), target@),
            decreases req.skip_names@.len() - i,
        {
            let s = normalize(&req.skip_names[i], req.case_sensitive);
            if s.eq(&target) {
                listed_target = true;
            }
            let ghost before = names_view(skips@);
            skips.push(s);
            proof {
                assert(names_view(skips@) =~= before.push(s@));
                assert(req.skip_names@.subrange(0, i + 1) =~= req.skip_names@.subrange(
                    0,
                    i as int,
                ).push(req.skip_names@[i as int]));
                assert(normalized_all(req.skip_names@.subrange(0, i + 1), req.case_sensitive)
                    =~= normalized_all(req.skip_names@.subrange(0, i as int), req.case_sensitive).push(
                    normalized(req.skip_names@[i as int]@, req.case_sensitive),
                ));
                if listed_target && !listed(before, target@) {
                    assert(names_view(skips@)[i as int] == target@);
                }
                if listed(before, target@) {
                    let k = choose|k: int| 0 <= k < before.len() && before[k] == target@;
                    assert(names_view(skips@)[k] == target@);
                }
                if listed(names_view(skips@), target@) && !listed_target {
                    let k = choose|k: int|
                        0 <= k < names_view(skips@).len() && names_view(skips@)[k] == target@;
                    if k < i {
                        assert(before[k] == target@);
                    }
                }
            }
            i = i + 1;
        }
        proof {
            assert(req.skip_names@.subrange(0, i as int) =~= req.skip_names@);
        }
        Traversal {
            root: req.root_path.clone(),
            target,
            skips,
            recurse: req.recurse_into_matches && !listed_target,
            fuzzy: req.fuzzy,
            case_sensitive: req.case_sensitive,
            report_skipped: req.report_skipped,
            found_any: false,
            since_poll: 0,
            events: Ghost(Seq::empty()),
        }
    }

    /// Whether the walk ends here: the flag is looked at once per `POLL_INTERVAL` entries.
    pub fn should_stop(&self, control: &SearchControl) -> (r: bool)
        ensures
            r == (self.since_poll == 0 && !control.should_continue),
    {
        self.since_poll == 0 && !control.continue_search()
    }

    /// Whether `name` (normalized) is one of the skip names.
    pub fn is_skipped(&self, name: &String) -> (r: bool)
        ensures
            r == listed(names_view(self.skips@), name@),
    {
        let mut i: usize = 0;
        while i < self.skips.len()
            invariant
                i <= self.skips@.len(),
                forall|k: int| 0 <= k < i ==> self.skips@[k]@ != name@,
            decreases self.skips@.len() - i,
        {
            if self.skips[i].eq(name) {
                assert(names_view(self.skips@)[i as int] == name@);
                return true;
            }
            i = i + 1;
        }
        proof {
            if listed(names_view(self.skips@), name@) {
                let k = choose|k: int|
                    0 <= k < names_view(self.skips@).len() && names_view(self.skips@)[k] == name@;
                assert(self.skips@[k]@ == name@);
            }
        }
        false
    }

    /// Decides on a directory whose name is already normalized, and records the event.
    pub fn visit_dir(&mut self, name: &String, path: &String) -> (step: Step)
        requires
            old(self).wf(),
        ensures
            final(self).wf(),
            step == old(self).dir_step(name@, *path),
            final(self).events@ == old(self).events_after(step),
            final(self).since_poll == old(self).next_since_poll(),
            final(self).target == old(self).target,
            final(self).skips == old(self).skips,
            final(self).recurse == old(self).recurse,
            final(self).fuzzy == old(self).fuzzy,
            final(self).report_skipped == old(self).report_skipped,
            final(self).case_sensitive == old(self).case_sensitive,
            final(self).root == old(self).root,
    {
        let ghost before = *self;
        self.tick();
        let step = if self.is_skipped(name) {
            Step {
                event: if self.report_skipped {
                    Some(MatchEvent::SkipFolderFound(path.clone()))
                } else {
                    None
                },
                prune: true,
            }
        } else if name_matches(name, &self.target, self.fuzzy) {
            self.found_any = true;
            Step { event: Some(MatchEvent::FolderFound(path.clone())), prune: !self.recurse }
        } else {
            Step { event: None, prune: false }
        };
        proof {
            let ghost old_events = self.events@;
            let ghost new_events = before.events_after(step);
            if has_found(old_events) {
                let k = choose|k: int| 0 <= k < old_events.len() && old_events[k] is FolderFound;
                assert(new_events[k] is FolderFound);
            }
            if step.event is Some && step.event->0 is FolderFound {
                assert(new_events[old_events.len() as int] is FolderFound);
            }
            if has_found(new_events) && !has_found(old_events) {
                let k = choose|k: int| 0 <= k < new_events.len() && new_events[k] is FolderFound;
                assert(k == old_events.len());
            }
            self.events = Ghost(new_events);
        }
        step
    }

    fn tick(&mut self)
        requires
            old(self).wf(),
        ensures
            final(self).since_poll == old(self).next_since_poll(),
            final(self).since_poll < POLL_INTERVAL,
            final(self).found_any == old(self).found_any,
            final(self).events == old(self).events,
            final(self).target == old(self).target,
            final(self).skips == old(self).skips,
            final(self).recurse == old(self).recurse,
            final(self).fuzzy == old(self).fuzzy,
            final(self).report_skipped == old(self).report_skipped,
            final(self).case_sensitive == old(self).case_sensitive,
            final(self).root == old(self).root,
    {
        if self.since_poll + 1 == POLL_INTERVAL {
            self.since_poll = 0;
        } else {
            self.since_poll = self.since_poll + 1;
        }
    }

    /// Handles one walked entry: directories are normalized and decided on,
    /// files and unreadable entries only count towards the next poll.
    pub fn visit(&mut self, entry: &WalkEntry) -> (step: Step)
        requires
            old(self).wf(),
        ensures
            final(self).wf(),
            final(self).since_poll == old(self).next_since_poll(),
            final(self).events@ == old(self).events_after(step),
            final(self).target == old(self).target,
            final(self).skips == old(self).skips,
            final(self).recurse == old(self).recurse,
            final(self).root == old(self).root,
            match entry {
                WalkEntry::Dir { name, path } => step == old(self).dir_step(
                    normalized(name@, old(self).case_sensitive),
                    *path,
                ),
                _ => step.event is None && !step.prune,
            },
    {
        match entry {
            WalkEntry::Dir { name, path } => {
                let n = normalize(name, self.case_sensitive);
                self.visit_dir(&n, path)
            },
            _ => {
                self.tick();
                Step { event: None, prune: false }
            },
        }
    }

    /// The event that closes the traversal: `NoFoldersFound` exactly when nothing was found.
    pub fn finish(&self) -> (r: Option<MatchEvent>)
        requires
            self.wf(),
        ensures
            r == (if has_found(self.events@) {
                None
            } else {
                Some(MatchEvent::NoFoldersFound(self.root))
            }),
    {
        if self.found_any {
            None
        } else {
            Some(MatchEvent::NoFoldersFound(self.root.clone()))
        }
    }
}

/// When the target name is itself skip-listed, the run never descends into a
/// directory it reports as found, whatever the caller asked for.
pub proof fn lemma_skip_listed_target_never_recurses(
    req: SearchRequest,
    t: Traversal,
    name: Seq<char>,
    path: String,
)
    requires
        t.started_from(req),
        listed(
            normalized_all(req.skip_names@, req.case_sensitive),
            normalized(req.target_name@, req.case_sensitive),
        ),
    ensures
        !t.recurse,
        t.dir_step(name, path).event is Some ==> t.dir_step(name, path).prune,
{
}

/// A visited directory that is not skip-listed and matches the target is
/// reported exactly once, as found, under its own path.
pub proof fn lemma_unpruned_match_reported(t: Traversal, name: Seq<char>, path: String)
    requires
        !listed(names_view(t.skips@), name),
        name_matches_spec(name, t.target@, t.fuzzy),
    ensures
        t.dir_step(name, path).event == Some(MatchEvent::FolderFound(path)),
        t.events_after(t.dir_step(name, path)).len() == t.events@.len() + 1,
        t.dir_step(name, path).prune == !t.recurse,
{
}

/// Two runs of the same request decide alike on every entry.
pub proof fn lemma_same_request_same_steps(
    req: SearchRequest,
    t1: Traversal,
    t2: Traversal,
    name: Seq<char>,
    path: String,
)
    requires
        t1.started_from(req),
        t2.started_from(req),
    ensures
        t1.dir_step(name, path) == t2.dir_step(name, path),
        t1.next_since_poll() == t2.next_since_poll(),
{
}

/// How many more entries a walk visits before it next looks at the flag.
pub open spec fn entries_until_poll(t: Traversal) -> int {
    if t.since_poll == 0 {
        0
    } else {
        POLL_INTERVAL - t.since_poll
    }
}

/// Once the flag says stop, the walk ends at its next poll, which comes before
/// `POLL_INTERVAL` more entries are visited: each visit brings it one closer.
pub proof fn lemma_stop_ends_walk(t: Traversal, control: SearchControl)
    requires
        t.wf(),
        !control.should_continue,
    ensures
        0 <= entries_until_poll(t) < POLL_INTERVAL,
        entries_until_poll(t) == 0 ==> (t.since_poll == 0 && !control.should_continue),
        entries_until_poll(t) > 0 ==> entries_until_poll(
            Traversal { since_poll: t.next_since_poll(), ..t },
        ) == entries_until_poll(t) - 1,
{
}

} // verus!
