//! Logic module.
//!
//! The flight state machine: the closed set of flight phases, the bijective
//! mapping between phases and the uppercase tokens under which they are
//! persisted, the phase transition graph, and an in-memory model of the
//! persisted phase record that the surrounding application mirrors to the
//! real state file.
//!
//! A build flying with a positioning receiver walks the fix-related phases;
//! a build without one replaces them with `EternalLoop`. The `gps` flag of
//! the parsing and transition functions selects between those two sets, so a
//! token of the other build is a hard parse error, never a silent default.

pub mod init;

use vstd::prelude::*;
use vstd::string::StrSliceExecFns;
use vstd::string::StringExecFns;

use crate::error;
use crate::strutil::str_eq;

verus! {

/// States of the onboard computer.
#[derive(Debug, Clone, Copy, PartialEq, Eq, Structural)]
pub enum State {
    /// Initialization.
    Init,
    /// Acquiring a positioning fix.
    AcquiringFix,
    /// A positioning fix has been acquired.
    FixAcquired,
    /// Waiting for balloon launch.
    WaitingLaunch,
    /// Going up.
    GoingUp,
    /// Going down.
    GoingDown,
    /// Probe landed.
    Landed,
    /// Shutting the computer down.
    ShutDown,
    /// Safe mode operation.
    SafeMode,
    /// Eternal loop, when no positioning receiver is configured.
    EternalLoop,
}

/// The token under which a state is persisted in the state file.
pub open spec fn token_spec(s: State) -> Seq<char> {
    match s {
        State::Init => "INITIALIZING"@,
        State::AcquiringFix => "ACQUIRING_FIX"@,
        State::FixAcquired => "FIX_ACQUIRED"@,
        State::WaitingLaunch => "WAITING_LAUNCH"@,
        State::GoingUp => "GOING_UP"@,
        State::GoingDown => "GOING_DOWN"@,
        State::Landed => "LANDED"@,
        State::ShutDown => "SHUT_DOWN"@,
        State::SafeMode => "SAFE_MODE"@,
        State::EternalLoop => "ETERNAL_LOOP"@,
    }
}

/// Whether a state exists in the flown build: the fix-related states need a
/// positioning receiver, `EternalLoop` replaces them when there is none.
pub open spec fn state_available(s: State, gps: bool) -> bool {
    match s {
        State::AcquiringFix => gps,
        State::FixAcquired => gps,
        State::WaitingLaunch => gps,
        State::GoingUp => gps,
        State::GoingDown => gps,
        State::Landed => gps,
        State::EternalLoop => !gps,
        _ => true,
    }
}

/// What parsing a token yields: the unique available state with this token,
/// or nothing when no available state carries it.
pub open spec fn parse_spec(t: Seq<char>, gps: bool) -> Option<State> {
    if t == token_spec(State::Init) {
        Some(State::Init)
    } else if gps && t == token_spec(State::AcquiringFix) {
        Some(State::AcquiringFix)
    } else if gps && t == token_spec(State::FixAcquired) {
        Some(State::FixAcquired)
    } else if gps && t == token_spec(State::WaitingLaunch) {
        Some(State::WaitingLaunch)
    } else if gps && t == token_spec(State::GoingUp) {
        Some(State::GoingUp)
    } else if gps && t == token_spec(State::GoingDown) {
        Some(State::GoingDown)
    } else if gps && t == token_spec(State::Landed) {
        Some(State::Landed)
    } else if t == token_spec(State::ShutDown) {
        Some(State::ShutDown)
    } else if t == token_spec(State::SafeMode) {
        Some(State::SafeMode)
    } else if !gps && t == token_spec(State::EternalLoop) {
        Some(State::EternalLoop)
    } else {
        None
    }
}

impl State {
    /// Gets the state as the string under which it is stored in the state
    /// file.
    pub fn as_str(&self) -> (s: &'static str)
        ensures
            s@ == token_spec(*self),
    {
        match *self {
            State::Init => "INITIALIZING",
            State::AcquiringFix => "ACQUIRING_FIX",
            State::FixAcquired => "FIX_ACQUIRED",
            State::WaitingLaunch => "WAITING_LAUNCH",
            State::GoingUp => "GOING_UP",
            State::GoingDown => "GOING_DOWN",
            State::Landed => "LANDED",
            State::ShutDown => "SHUT_DOWN",
            State::SafeMode => "SAFE_MODE",
            State::EternalLoop => "ETERNAL_LOOP",
        }
    }

    /// Parses a persisted token back into a state. `gps` says whether the
    /// flown build has a positioning receiver, which decides whether the
    /// fix-related tokens or the eternal-loop token are recognized. A token
    /// that names no available state is an invalid-state error.
    pub fn parse(s: &str, gps: bool) -> (r: Result<State, error::LastState>)
        ensures
            match parse_spec(s@, gps) {
                Some(st) => r == Ok::<State, error::LastState>(st),
                None => (r matches Err(error::LastState::Invalid { state })
                    && state@ == s@),
            },
    {
        if str_eq(s, "INITIALIZING") {
            Ok(State::Init)
        } else if gps && str_eq(s, "ACQUIRING_FIX") {
            Ok(State::AcquiringFix)
        } else if gps && str_eq(s, "FIX_ACQUIRED") {
            Ok(State::FixAcquired)
        } else if gps && str_eq(s, "WAITING_LAUNCH") {
            Ok(State::WaitingLaunch)
        } else if gps && str_eq(s, "GOING_UP") {
            Ok(State::GoingUp)
        } else if gps && str_eq(s, "GOING_DOWN") {
            Ok(State::GoingDown)
        } else if gps && str_eq(s, "LANDED") {
            Ok(State::Landed)
        } else if str_eq(s, "SHUT_DOWN") {
            Ok(State::ShutDown)
        } else if str_eq(s, "SAFE_MODE") {
            Ok(State::SafeMode)
        } else if !gps && str_eq(s, "ETERNAL_LOOP") {
            Ok(State::EternalLoop)
        } else {
            Err(error::LastState::Invalid { state: s.to_owned() })
        }
    }
}

/// Facts about the token literals that the distinctness arguments need:
/// their lengths, and a distinguishing character inside each group of
/// tokens that share a length.
proof fn lemma_token_facts()
    ensures
        "INITIALIZING"@.len() == 12,
        "ACQUIRING_FIX"@.len() == 13,
        "FIX_ACQUIRED"@.len() == 12,
        "WAITING_LAUNCH"@.len() == 14,
        "GOING_UP"@.len() == 8,
        "GOING_DOWN"@.len() == 10,
        "LANDED"@.len() == 6,
        "SHUT_DOWN"@.len() == 9,
        "SAFE_MODE"@.len() == 9,
        "ETERNAL_LOOP"@.len() == 12,
        "INITIALIZING"@[0] == 'I',
        "FIX_ACQUIRED"@[0] == 'F',
        "ETERNAL_LOOP"@[0] == 'E',
        "SHUT_DOWN"@[1] == 'H',
        "SAFE_MODE"@[1] == 'A',
{
    reveal_strlit("INITIALIZING");
    reveal_strlit("ACQUIRING_FIX");
    reveal_strlit("FIX_ACQUIRED");
    reveal_strlit("WAITING_LAUNCH");
    reveal_strlit("GOING_UP");
    reveal_strlit("GOING_DOWN");
    reveal_strlit("LANDED");
    reveal_strlit("SHUT_DOWN");
    reveal_strlit("SAFE_MODE");
    reveal_strlit("ETERNAL_LOOP");
}

/// The tokens are pairwise distinct, so the token-to-state mapping is
/// injective: two states with the same token are the same state.
pub proof fn lemma_token_injective(a: State, b: State)
    requires
        token_spec(a) == token_spec(b),
    ensures
        a == b,
{
    lemma_token_facts();
}

/// Round trip: every state available in a build parses back from its own
/// token. Together with the contract of [`State::parse`] (an unrecognized
/// token is always an invalid-state error) this makes the token mapping a
/// bijection between available states and their tokens.
pub proof fn lemma_token_round_trip(s: State, gps: bool)
    requires
        state_available(s, gps),
    ensures
        parse_spec(token_spec(s), gps) == Some(s),
{
    lemma_token_facts();
}

/// What parsing means, stated without the comparison order: a token parses
/// to an available state that carries exactly that token, and a token parses
/// to nothing exactly when no available state carries it.
pub proof fn lemma_parse_characterization(t: Seq<char>, gps: bool)
    ensures
        match parse_spec(t, gps) {
            Some(st) => state_available(st, gps) && token_spec(st) == t,
            None => forall|st: State| state_available(st, gps) ==> token_spec(st) != t,
        },
{
    if parse_spec(t, gps) is None {
        assert forall|st: State| state_available(st, gps) implies token_spec(st) != t by {
            lemma_token_facts();
        }
    }
}

/// A persisted token is never empty.
pub proof fn lemma_token_nonempty(s: State)
    ensures
        token_spec(s).len() > 0,
{
    reveal_strlit("INITIALIZING");
    reveal_strlit("ACQUIRING_FIX");
    reveal_strlit("FIX_ACQUIRED");
    reveal_strlit("WAITING_LAUNCH");
    reveal_strlit("GOING_UP");
    reveal_strlit("GOING_DOWN");
    reveal_strlit("LANDED");
    reveal_strlit("SHUT_DOWN");
    reveal_strlit("SAFE_MODE");
    reveal_strlit("ETERNAL_LOOP");
}

/// Trait to get the current state in the [`State`] enum for the current
/// state in the state machine.
pub trait GetState {
    /// The state enumeration variant this value stands for.
    spec fn state_spec(&self) -> State;

    /// Gets the state enumeration variant for the current state.
    fn get_state(&self) -> (s: State)
        ensures
            s == self.state_spec(),
    ;
}

/// Initialization state.
#[derive(Debug, Clone, Copy)]
pub struct Init;

impl GetState for Init {
    open spec fn state_spec(&self) -> State {
        State::Init
    }

    fn get_state(&self) -> State {
        State::Init
    }
}

/// Acquiring fix state.
#[derive(Debug, Clone, Copy)]
pub struct AcquiringFix;

impl GetState for AcquiringFix {
    open spec fn state_spec(&self) -> State {
        State::AcquiringFix
    }

    fn get_state(&self) -> State {
        State::AcquiringFix
    }
}

/// Fix acquired state.
#[derive(Debug, Clone, Copy)]
pub struct FixAcquired;

impl GetState for FixAcquired {
    open spec fn state_spec(&self) -> State {
        State::FixAcquired
    }

    fn get_state(&self) -> State {
        State::FixAcquired
    }
}

/// Waiting launch state.
#[derive(Debug, Clone, Copy)]
pub struct WaitingLaunch;

impl GetState for WaitingLaunch {
    open spec fn state_spec(&self) -> State {
        State::WaitingLaunch
    }

    fn get_state(&self) -> State {
        State::WaitingLaunch
    }
}

/// Going up state.
#[derive(Debug, Clone, Copy)]
pub struct GoingUp;

impl GetState for GoingUp {
    open spec fn state_spec(&self) -> State {
        State::GoingUp
    }

    fn get_state(&self) -> State {
        State::GoingUp
    }
}

/// Going down state.
#[derive(Debug, Clone, Copy)]
pub struct GoingDown;

impl GetState for GoingDown {
    open spec fn state_spec(&self) -> State {
        State::GoingDown
    }

    fn get_state(&self) -> State {
        State::GoingDown
    }
}

/// Landed state.
#[derive(Debug, Clone, Copy)]
pub struct Landed;

impl GetState for Landed {
    open spec fn state_spec(&self) -> State {
        State::Landed
    }

    fn get_state(&self) -> State {
        State::Landed
    }
}

/// Shut down state.
#[derive(Debug, Clone, Copy)]
pub struct ShutDown;

impl GetState for ShutDown {
    open spec fn state_spec(&self) -> State {
        State::ShutDown
    }

    fn get_state(&self) -> State {
        State::ShutDown
    }
}

/// Safe mode state.
#[derive(Debug, Clone, Copy)]
pub struct SafeMode;

impl GetState for SafeMode {
    open spec fn state_spec(&self) -> State {
        State::SafeMode
    }

    fn get_state(&self) -> State {
        State::SafeMode
    }
}

/// Eternal loop state, when no positioning receiver is configured.
#[derive(Debug, Clone, Copy)]
pub struct EternalLoop;

impl GetState for EternalLoop {
    open spec fn state_spec(&self) -> State {
        State::EternalLoop
    }

    fn get_state(&self) -> State {
        State::EternalLoop
    }
}

/// Struct to allow type checking shut down.
#[derive(Debug, Clone, Copy)]
pub struct Void;

/// Main state machine wrapper. The type parameter tracks the current phase,
/// so only the transition logic produces new phase values.
#[derive(Debug, Clone, Copy)]
pub struct OpenStratos<S: GetState> {
    /// State of the logic item.
    pub state: S,
}

impl<S: GetState> GetState for OpenStratos<S> {
    open spec fn state_spec(&self) -> State {
        self.state.state_spec()
    }

    fn get_state(&self) -> State {
        self.state.get_state()
    }
}

/// Initializes a new state machine.
pub fn init() -> (r: OpenStratos<Init>)
    ensures
        r.state_spec() == State::Init,
{
    OpenStratos { state: Init }
}

/// The phase that follows a phase in the transition graph, or nothing for a
/// terminal phase. With a positioning receiver the flight walks the
/// fix-related phases; without one, initialization leads to the eternal
/// loop. `SafeMode` is a terminal fallback: the recovery policy out of it is
/// deliberately left open.
pub open spec fn next_phase_spec(s: State, gps: bool) -> Option<State> {
    match s {
        State::Init => if gps {
            Some(State::AcquiringFix)
        } else {
            Some(State::EternalLoop)
        },
        State::AcquiringFix => Some(State::FixAcquired),
        State::FixAcquired => Some(State::WaitingLaunch),
        State::WaitingLaunch => Some(State::GoingUp),
        State::GoingUp => Some(State::GoingDown),
        State::GoingDown => Some(State::Landed),
        State::Landed => Some(State::ShutDown),
        State::EternalLoop => Some(State::ShutDown),
        State::ShutDown => None,
        State::SafeMode => None,
    }
}

/// Returns the phase that follows `s`, or nothing for a terminal phase.
pub fn next_phase(s: State, gps: bool) -> (r: Option<State>)
    ensures
        r == next_phase_spec(s, gps),
{
    match s {
        State::Init => if gps {
            Some(State::AcquiringFix)
        } else {
            Some(State::EternalLoop)
        },
        State::AcquiringFix => Some(State::FixAcquired),
        State::FixAcquired => Some(State::WaitingLaunch),
        State::WaitingLaunch => Some(State::GoingUp),
        State::GoingUp => Some(State::GoingDown),
        State::GoingDown => Some(State::Landed),
        State::Landed => Some(State::ShutDown),
        State::EternalLoop => Some(State::ShutDown),
        State::ShutDown => None,
        State::SafeMode => None,
    }
}

/// How many transitions are left before a terminal phase.
pub open spec fn phase_rank(s: State) -> nat {
    match s {
        State::Init => 7,
        State::AcquiringFix => 6,
        State::FixAcquired => 5,
        State::WaitingLaunch => 4,
        State::GoingUp => 3,
        State::GoingDown => 2,
        State::Landed => 1,
        State::EternalLoop => 1,
        State::ShutDown => 0,
        State::SafeMode => 0,
    }
}

/// Every transition strictly decreases the remaining-phase rank, so a flight
/// that keeps advancing reaches a terminal phase.
pub proof fn lemma_transitions_terminate(s: State, gps: bool)
    ensures
        next_phase_spec(s, gps) matches Some(n) ==> phase_rank(n) < phase_rank(s),
{
}

/// The transition graph stays inside the states available to the build: an
/// available phase only ever advances to another available phase.
pub proof fn lemma_transitions_available(s: State, gps: bool)
    requires
        state_available(s, gps),
    ensures
        next_phase_spec(s, gps) matches Some(n) ==> state_available(n, gps),
{
}

/// In-memory model of the persisted phase record. `None` models a missing
/// state file; an empty string models an empty file; both mean "no prior
/// run". The surrounding application mirrors every write to the real file,
/// in the order they happen here.
pub struct StateStore {
    content: Option<String>,
}

impl StateStore {
    /// What the modeled state file holds, if it exists.
    pub closed spec fn content_spec(&self) -> Option<Seq<char>> {
        match self.content {
            Some(ref c) => Some(c@),
            None => None,
        }
    }

    /// A store whose state file does not exist yet.
    pub fn missing() -> (r: StateStore)
        ensures
            r.content_spec() == None::<Seq<char>>,
    {
        StateStore { content: None }
    }

    /// A store holding file content read by the application, or nothing when
    /// the file does not exist.
    pub fn from_content(content: Option<String>) -> (r: StateStore)
        ensures
            match content {
                Some(c) => r.content_spec() == Some(c@),
                None => r.content_spec() == None::<Seq<char>>,
            },
    {
        StateStore { content }
    }

    /// Records a state: the file now holds exactly that state's token.
    pub fn write(&mut self, s: State)
        ensures
            final(self).content_spec() == Some(token_spec(s)),
    {
        self.content = Some(String::from_str(s.as_str()));
    }

    /// Reads the last persisted state back: a missing or empty file means no
    /// prior run, any other content must parse as a token of an available
    /// state, and an unknown token is an invalid-state error, never a
    /// default.
    pub fn read(&self, gps: bool) -> (r: Result<Option<State>, error::LastState>)
        ensures
            match self.content_spec() {
                None => r == Ok::<Option<State>, error::LastState>(None),
                Some(t) => if t.len() == 0 {
                    r == Ok::<Option<State>, error::LastState>(None)
                } else {
                    match parse_spec(t, gps) {
                        Some(st) => r == Ok::<Option<State>, error::LastState>(Some(st)),
                        None => (r matches Err(error::LastState::Invalid { state })
                            && state@ == t),
                    }
                },
            },
    {
        match self.content {
            None => Ok(None),
            Some(ref c) => {
                if c.as_str().unicode_len() == 0 {
                    Ok(None)
                } else {
                    match State::parse(c.as_str(), gps) {
                        Ok(st) => Ok(Some(st)),
                        Err(e) => Err(e),
                    }
                }
            },
        }
    }
}

/// The flight machine together with its persisted record. Its invariant is
/// the durability contract: the store always names the phase that is about
/// to run (or running), never one behind it — so a crash leaves on disk a
/// phase whose prerequisites are known to have completed. Advancing updates
/// the in-memory phase and persists its token before the next phase's logic
/// is handed out to run; the surrounding application mirrors every store
/// write to the real file in the same order.
pub struct FlightMachine {
    /// The phase whose logic runs now.
    current: State,
    /// The persisted record; it always holds the current phase's token.
    store: StateStore,
}

impl FlightMachine {
    /// The durability invariant: the persisted record names the phase that
    /// is about to run.
    pub closed spec fn wf(&self) -> bool {
        self.store.content_spec() == Some(token_spec(self.current))
    }

    /// The phase whose logic runs now.
    pub closed spec fn current_spec(&self) -> State {
        self.current
    }

    /// Starts (or resumes) the machine at a phase, recording it at once.
    pub fn start(s: State) -> (r: FlightMachine)
        ensures
            r.wf(),
            r.current_spec() == s,
    {
        let mut store = StateStore::missing();
        store.write(s);
        FlightMachine { current: s, store }
    }

    /// The phase whose logic runs now.
    pub fn current(&self) -> (r: State)
        ensures
            r == self.current_spec(),
    {
        self.current
    }

    /// Advances past the current phase once its logic has completed: the
    /// in-memory phase moves to its successor and the successor's token is
    /// persisted, in that order, before the successor is handed back to run.
    /// At a terminal phase nothing changes and nothing is handed back.
    pub fn advance(&mut self, gps: bool) -> (r: Option<State>)
        requires
            old(self).wf(),
        ensures
            final(self).wf(),
            r == next_phase_spec(old(self).current_spec(), gps),
            match next_phase_spec(old(self).current_spec(), gps) {
                Some(n) => final(self).current_spec() == n,
                None => final(self).current_spec() == old(self).current_spec(),
            },
    {
        match next_phase(self.current, gps) {
            Some(n) => {
                self.current = n;
                self.store.write(n);
                Some(n)
            },
            None => None,
        }
    }
}

/// Persisted-state lifecycle: writing a state to the store and reading it
/// back yields exactly that state.
pub proof fn lemma_store_round_trip(s: State, gps: bool)
    requires
        state_available(s, gps),
    ensures
        token_spec(s).len() > 0,
        parse_spec(token_spec(s), gps) == Some(s),
{
    lemma_token_nonempty(s);
    lemma_token_round_trip(s, gps);
}

} // verus!
