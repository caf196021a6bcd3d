use vstd::prelude::*;

use crate::algorithm::{ChromaprintAlgorithm, CHROMAPRINT_ALGORITHM_DEFAULT};
use crate::marshal::{is_success, length_arg, succeeded};

verus! {

/// Where a session stands in the caller protocol of the native library:
/// created, then started (audio may be fed, any number of times), then
/// finished (a fingerprint may be read). There is no way back.
#[derive(Clone, Copy, Debug, PartialEq, Eq, Structural)]
pub enum Stage {
    Created,
    Started,
    Finished,
}

/// The stateful native calls a session makes.
#[derive(Clone, Copy, Debug, PartialEq, Eq, Structural)]
pub enum Op {
    Start,
    Feed,
    Finish,
    /// Reading the fingerprint, in compact or in raw form.
    Fingerprint,
}

/// Whether `op` may be handed to the native library in `stage`.
pub open spec fn allowed(stage: Stage, op: Op) -> bool {
    match op {
        Op::Start => stage == Stage::Created,
        Op::Feed => stage == Stage::Started,
        Op::Finish => stage == Stage::Started,
        Op::Fingerprint => stage == Stage::Finished,
    }
}

/// The stage after `op` was made in `stage` and the library answered `ok`.
/// A refused or failed call changes nothing.
pub open spec fn step(stage: Stage, op: Op, ok: bool) -> Stage {
    if allowed(stage, op) && ok {
        match op {
            Op::Start => Stage::Started,
            Op::Finish => Stage::Finished,
            _ => stage,
        }
    } else {
        stage
    }
}

/// The stage reached from `stage` by a sequence of calls, each with the
/// library's answer.
pub open spec fn run(stage: Stage, events: Seq<(Op, bool)>) -> Stage
    decreases events.len(),
{
    if events.len() == 0 {
        stage
    } else {
        run(step(stage, events[0].0, events[0].1), events.drop_first())
    }
}

/// What a session is: the variant it fingerprints with, and its stage.
pub struct SessionState {
    pub algorithm: ChromaprintAlgorithm,
    pub stage: Stage,
}

/// One fingerprinting session with the native library: the protocol state
/// that decides which native call may be made next and what its caller gets.
pub struct Chromaprint {
    algorithm: ChromaprintAlgorithm,
    stage: Stage,
}

impl View for Chromaprint {
    type V = SessionState;

    closed spec fn view(&self) -> SessionState {
        SessionState { algorithm: self.algorithm, stage: self.stage }
    }
}

impl Chromaprint {
    /// A fresh session for the default variant.
    pub fn new() -> (r: Chromaprint)
        ensures
            r@ == (SessionState {
                algorithm: CHROMAPRINT_ALGORITHM_DEFAULT,
                stage: Stage::Created,
            }),
    {
        Chromaprint { algorithm: CHROMAPRINT_ALGORITHM_DEFAULT, stage: Stage::Created }
    }

    /// A fresh session for the variant `algorithm`.
    pub fn with_algorithm(algorithm: ChromaprintAlgorithm) -> (r: Chromaprint)
        ensures
            r@ == (SessionState { algorithm, stage: Stage::Created }),
    {
        Chromaprint { algorithm, stage: Stage::Created }
    }

    /// The variant this session fingerprints with.
    pub fn algorithm(&self) -> (r: ChromaprintAlgorithm)
        ensures
            r == self@.algorithm,
    {
        self.algorithm
    }

    /// The session's current stage.
    pub fn stage(&self) -> (r: Stage)
        ensures
            r == self@.stage,
    {
        self.stage
    }

    /// Whether `op` may be handed to the native library now.
    pub fn permits(&self, op: Op) -> (r: bool)
        ensures
            r == allowed(self@.stage, op),
    {
        match op {
            Op::Start => self.stage == Stage::Created,
            Op::Feed => self.stage == Stage::Started,
            Op::Finish => self.stage == Stage::Started,
            Op::Fingerprint => self.stage == Stage::Finished,
        }
    }

    fn record(&mut self, op: Op, code: libc::c_int) -> (r: bool)
        ensures
            r == (allowed(old(self)@.stage, op) && is_success(code as int)),
            final(self)@ == (SessionState {
                algorithm: old(self)@.algorithm,
                stage: step(old(self)@.stage, op, is_success(code as int)),
            }),
    {
        if !self.permits(op) || !succeeded(code) {
            return false;
        }
        match op {
            Op::Start => {
                self.stage = Stage::Started;
            },
            Op::Finish => {
                self.stage = Stage::Finished;
            },
            _ => {},
        }
        true
    }

    /// Records the library's answer `code` to a start call (sample rate and
    /// channel count). True when the session was waiting to be started and
    /// the library accepted; the session then takes audio.
    pub fn start(&mut self, code: libc::c_int) -> (r: bool)
        ensures
            r == (old(self)@.stage == Stage::Created && is_success(code as int)),
            final(self)@.algorithm == old(self)@.algorithm,
            final(self)@.stage == (if r { Stage::Started } else { old(self)@.stage }),
            final(self)@.stage == step(old(self)@.stage, Op::Start, is_success(code as int)),
    {
        self.record(Op::Start, code)
    }

    /// The length argument of a feed call with `data`, or `None` when audio
    /// may not be fed now or `data` is longer than a C `int` can count.
    pub fn feed_request(&self, data: &[i16]) -> (r: Option<libc::c_int>)
        ensures
            r == (if self@.stage == Stage::Started && data@.len() <= i32::MAX {
                Some(data@.len() as libc::c_int)
            } else {
                None::<libc::c_int>
            }),
    {
        if self.permits(Op::Feed) {
            length_arg(data.len())
        } else {
            None
        }
    }

    /// Records the library's answer `code` to a feed call. True when the
    /// session was taking audio and the library accepted; the stage stays.
    pub fn feed(&mut self, code: libc::c_int) -> (r: bool)
        ensures
            r == (old(self)@.stage == Stage::Started && is_success(code as int)),
            final(self)@ == old(self)@,
            final(self)@.stage == step(old(self)@.stage, Op::Feed, is_success(code as int)),
    {
        self.record(Op::Feed, code)
    }

    /// Records the library's answer `code` to a finish call. True when the
    /// session was taking audio and the library accepted; a fingerprint may
    /// then be read, and no more audio fed.
    pub fn finish(&mut self, code: libc::c_int) -> (r: bool)
        ensures
            r == (old(self)@.stage == Stage::Started && is_success(code as int)),
            final(self)@.algorithm == old(self)@.algorithm,
            final(self)@.stage == (if r { Stage::Finished } else { old(self)@.stage }),
            final(self)@.stage == step(old(self)@.stage, Op::Finish, is_success(code as int)),
    {
        self.record(Op::Finish, code)
    }

    /// The compact fingerprint, given the library's answer `code` to a
    /// request for it and the text copied out of its buffer (`None` where the
    /// bytes were not UTF-8). Present only when the session is finished and
    /// the library succeeded.
    pub fn fingerprint(&self, code: libc::c_int, text: Option<String>) -> (r: Option<String>)
        ensures
            r == (if self@.stage == Stage::Finished && is_success(code as int) {
                text
            } else {
                None::<String>
            }),
    {
        if self.permits(Op::Fingerprint) && succeeded(code) {
            text
        } else {
            None
        }
    }

    /// The raw fingerprint, given the library's answer `code` to a request
    /// for it and the values copied out of its buffer (`None` where nothing
    /// could be copied, see `copied_len`). Present only when the session is
    /// finished and the library succeeded.
    pub fn raw_fingerprint(&self, code: libc::c_int, values: Option<Vec<libc::c_int>>) -> (r:
        Option<Vec<libc::c_int>>)
        ensures
            r == (if self@.stage == Stage::Finished && is_success(code as int) {
                values
            } else {
                None::<Vec<libc::c_int>>
            }),
    {
        if self.permits(Op::Fingerprint) && succeeded(code) {
            values
        } else {
            None
        }
    }
}

/// The rank of a stage in the protocol's order.
pub open spec fn rank(stage: Stage) -> int {
    match stage {
        Stage::Created => 0,
        Stage::Started => 1,
        Stage::Finished => 2,
    }
}

/// A session never moves back: whatever calls are made and however the
/// library answers them, the stage reached is at least as far along as the
/// one it started from.
pub proof fn stage_never_goes_back(stage: Stage, events: Seq<(Op, bool)>)
    ensures
        rank(run(stage, events)) >= rank(stage),
    decreases events.len(),
{
    if events.len() > 0 {
        stage_never_goes_back(step(stage, events[0].0, events[0].1), events.drop_first());
    }
}

/// Once finished, a session stays finished: no call brings it back to taking
/// audio.
pub proof fn finished_is_final(events: Seq<(Op, bool)>)
    ensures
        run(Stage::Finished, events) == Stage::Finished,
{
    stage_never_goes_back(Stage::Finished, events);
}

/// Reading a fingerprint before the library has accepted a finish call is
/// refused: from a new session, calls among which no finish succeeded never
/// reach the stage in which a fingerprint may be read.
pub proof fn fingerprint_needs_finish(events: Seq<(Op, bool)>)
    requires
        forall|i: int| 0 <= i < events.len() ==> #[trigger] events[i] != (Op::Finish, true),
    ensures
        !allowed(run(Stage::Created, events), Op::Fingerprint),
{
    unfinished_stays_unfinished(Stage::Created, events);
}

proof fn unfinished_stays_unfinished(stage: Stage, events: Seq<(Op, bool)>)
    requires
        stage != Stage::Finished,
        forall|i: int| 0 <= i < events.len() ==> #[trigger] events[i] != (Op::Finish, true),
    ensures
        run(stage, events) != Stage::Finished,
    decreases events.len(),
{
    if events.len() > 0 {
        let rest = events.drop_first();
        assert forall|i: int| 0 <= i < rest.len() implies #[trigger] rest[i] != (Op::Finish, true) by {
            assert(rest[i] == events[i + 1]);
        }
        assert(events[0] != (Op::Finish, true));
        unfinished_stays_unfinished(step(stage, events[0].0, events[0].1), rest);
    }
}

/// The protocol run in order with every call accepted by the library: a start,
/// `feeds` feeds, and a finish.
pub open spec fn accepted_protocol(feeds: nat) -> Seq<(Op, bool)> {
    seq![(Op::Start, true)] + Seq::new(feeds, |i: int| (Op::Feed, true)) + seq![(Op::Finish, true)]
}

proof fn run_concat(stage: Stage, a: Seq<(Op, bool)>, b: Seq<(Op, bool)>)
    ensures
        run(stage, a + b) == run(run(stage, a), b),
    decreases a.len(),
{
    if a.len() > 0 {
        assert((a + b).drop_first() =~= a.drop_first() + b);
        assert((a + b)[0] == a[0]);
        run_concat(step(stage, a[0].0, a[0].1), a.drop_first(), b);
    } else {
        assert(a + b =~= b);
    }
}

proof fn accepted_feeds_keep_started(feeds: nat)
    ensures
        run(Stage::Started, Seq::new(feeds, |i: int| (Op::Feed, true))) == Stage::Started,
    decreases feeds,
{
    if feeds > 0 {
        let f = Seq::new(feeds, |i: int| (Op::Feed, true));
        assert(f.drop_first() =~= Seq::new((feeds - 1) as nat, |i: int| (Op::Feed, true)));
        accepted_feeds_keep_started((feeds - 1) as nat);
    }
}

/// The binding never withholds a fingerprint that the library would give:
/// when the library accepts a start, any number of feeds and a finish, in
/// that order, reading the fingerprint is permitted.
pub proof fn accepted_protocol_allows_fingerprint(feeds: nat)
    ensures
        allowed(run(Stage::Created, accepted_protocol(feeds)), Op::Fingerprint),
{
    let start = seq![(Op::Start, true)];
    let middle = Seq::new(feeds, |i: int| (Op::Feed, true));
    let end = seq![(Op::Finish, true)];
    run_concat(Stage::Created, start + middle, end);
    run_concat(Stage::Created, start, middle);
    single_run(Stage::Created, (Op::Start, true));
    accepted_feeds_keep_started(feeds);
    single_run(Stage::Started, (Op::Finish, true));
    assert(start + middle + end =~= accepted_protocol(feeds));
}

proof fn single_run(stage: Stage, event: (Op, bool))
    ensures
        run(stage, seq![event]) == step(stage, event.0, event.1),
{
    let one = seq![event];
    assert(one.drop_first() =~= Seq::<(Op, bool)>::empty());
    assert(run(step(stage, event.0, event.1), one.drop_first()) == step(stage, event.0, event.1));
}

} // verus!
