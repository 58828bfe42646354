//! Transport states and the integer codes an output device reports for them.

use vstd::prelude::*;

verus! {

/// Code a device reports for a source that has never been played.
pub const AL_INITIAL: i32 = 0x1011;

/// Code a device reports for a source that is playing.
pub const AL_PLAYING: i32 = 0x1012;

/// Code a device reports for a paused source.
pub const AL_PAUSED: i32 = 0x1013;

/// Code a device reports for a stopped source.
pub const AL_STOPPED: i32 = 0x1014;

/// Code a device uses for a boolean parameter that is set.
pub const AL_TRUE: i32 = 1;

/// Code a device uses for a boolean parameter that is clear.
pub const AL_FALSE: i32 = 0;

/// The caller-visible playback mode.
///
/// `Initial` is the state before any play call. `Stopped` is reached both by
/// an explicit stop and by the natural end of a stream that does not loop.
#[derive(Clone, Copy, Debug, PartialEq, Eq, Structural)]
pub enum State {
    Initial,
    Playing,
    Paused,
    Stopped,
}

impl State {
    /// The device code that stands for this state.
    pub open spec fn spec_code(self) -> i32 {
        match self {
            State::Initial => AL_INITIAL,
            State::Playing => AL_PLAYING,
            State::Paused => AL_PAUSED,
            State::Stopped => AL_STOPPED,
        }
    }

    /// The state a device code stands for, if it stands for one.
    pub open spec fn spec_from_code(code: i32) -> Option<State> {
        if code == AL_INITIAL {
            Some(State::Initial)
        } else if code == AL_PLAYING {
            Some(State::Playing)
        } else if code == AL_PAUSED {
            Some(State::Paused)
        } else if code == AL_STOPPED {
            Some(State::Stopped)
        } else {
            None
        }
    }

    /// The device code that stands for this state.
    pub fn code(self) -> (code: i32)
        ensures
            code == self.spec_code(),
    {
        match self {
            State::Initial => AL_INITIAL,
            State::Playing => AL_PLAYING,
            State::Paused => AL_PAUSED,
            State::Stopped => AL_STOPPED,
        }
    }

    /// Reads a device's answer to a state query. A code outside the four
    /// state codes gives `None`.
    pub fn from_code(code: i32) -> (state: Option<State>)
        ensures
            state == State::spec_from_code(code),
    {
        if code == AL_INITIAL {
            Some(State::Initial)
        } else if code == AL_PLAYING {
            Some(State::Playing)
        } else if code == AL_PAUSED {
            Some(State::Paused)
        } else if code == AL_STOPPED {
            Some(State::Stopped)
        } else {
            None
        }
    }

    /// Whether this is the `Playing` state.
    pub fn is_playing(self) -> (playing: bool)
        ensures
            playing == (self == State::Playing),
    {
        match self {
            State::Playing => true,
            _ => false,
        }
    }

    /// Every state is read back from its own code, and no two states share
    /// a code.
    pub proof fn law_code_round_trip(self, other: State)
        ensures
            State::spec_from_code(self.spec_code()) == Some(self),
            self.spec_code() == other.spec_code() ==> self == other,
    {
    }

    /// A code that stands for a state is that state's code.
    pub proof fn law_from_code_inverts(code: i32)
        ensures
            State::spec_from_code(code) matches Some(state) ==> state.spec_code() == code,
            State::spec_from_code(code) is None <==> !(AL_INITIAL <= code <= AL_STOPPED),
    {
    }
}

/// The device code for a boolean parameter.
pub open spec fn spec_flag_code(flag: bool) -> i32 {
    if flag {
        AL_TRUE
    } else {
        AL_FALSE
    }
}

/// The boolean a device code stands for, if it stands for one.
pub open spec fn spec_flag_from_code(code: i32) -> Option<bool> {
    if code == AL_TRUE {
        Some(true)
    } else if code == AL_FALSE {
        Some(false)
    } else {
        None
    }
}

/// The device code for a boolean parameter such as the loop flag.
pub fn flag_code(flag: bool) -> (code: i32)
    ensures
        code == spec_flag_code(flag),
{
    if flag {
        AL_TRUE
    } else {
        AL_FALSE
    }
}

/// Reads a device's answer to a query for a boolean parameter. A code that
/// is neither of the two boolean codes gives `None`.
pub fn flag_from_code(code: i32) -> (flag: Option<bool>)
    ensures
        flag == spec_flag_from_code(code),
{
    if code == AL_TRUE {
        Some(true)
    } else if code == AL_FALSE {
        Some(false)
    } else {
        None
    }
}

/// A boolean is read back from its own code.
pub proof fn law_flag_round_trip(flag: bool)
    ensures
        spec_flag_from_code(spec_flag_code(flag)) == Some(flag),
{
}

} // verus!
