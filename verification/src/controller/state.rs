use vstd::prelude::*;

use crate::text::{opt_view, text_eq};

verus! {

/// Where the controller stands; only the two failure states carry a reason.
#[derive(Debug, Clone)]
pub enum ControllerState {
    Idle,
    Recording,
    Processing,
    Degraded(String),
    Unavailable(String),
}

/// Mathematical model of a [`ControllerState`].
pub enum ControllerStateView {
    Idle,
    Recording,
    Processing,
    Degraded(Seq<char>),
    Unavailable(Seq<char>),
}

impl View for ControllerState {
    type V = ControllerStateView;

    open spec fn view(&self) -> ControllerStateView {
        match *self {
            ControllerState::Idle => ControllerStateView::Idle,
            ControllerState::Recording => ControllerStateView::Recording,
            ControllerState::Processing => ControllerStateView::Processing,
            ControllerState::Degraded(reason) => ControllerStateView::Degraded(reason@),
            ControllerState::Unavailable(reason) => ControllerStateView::Unavailable(reason@),
        }
    }
}

impl ControllerStateView {
    /// The snake_case tag under which the state is published.
    pub open spec fn mode(self) -> Seq<char> {
        match self {
            ControllerStateView::Idle => "idle"@,
            ControllerStateView::Recording => "recording"@,
            ControllerStateView::Processing => "processing"@,
            ControllerStateView::Degraded(_) => "degraded"@,
            ControllerStateView::Unavailable(_) => "unavailable"@,
        }
    }

    /// The reason published beside the tag, for the states that have one.
    pub open spec fn reason(self) -> Option<Seq<char>> {
        match self {
            ControllerStateView::Degraded(r) => Some(r),
            ControllerStateView::Unavailable(r) => Some(r),
            _ => None,
        }
    }
}

impl ControllerState {
    /// Copies the state.
    pub fn duplicate(&self) -> (r: Self)
        ensures
            r@ == self@,
    {
        match self {
            ControllerState::Idle => ControllerState::Idle,
            ControllerState::Recording => ControllerState::Recording,
            ControllerState::Processing => ControllerState::Processing,
            ControllerState::Degraded(reason) => ControllerState::Degraded(reason.clone()),
            ControllerState::Unavailable(reason) => ControllerState::Unavailable(reason.clone()),
        }
    }

    /// The snake_case tag under which the state is published.
    pub fn mode(&self) -> (r: &'static str)
        ensures
            r@ == self@.mode(),
    {
        match self {
            ControllerState::Idle => "idle",
            ControllerState::Recording => "recording",
            ControllerState::Processing => "processing",
            ControllerState::Degraded(_) => "degraded",
            ControllerState::Unavailable(_) => "unavailable",
        }
    }

    /// The reason published beside the tag, for the states that have one.
    pub fn reason(&self) -> (r: Option<String>)
        ensures
            crate::text::opt_view(r) == self@.reason(),
    {
        match self {
            ControllerState::Degraded(reason) => Some(reason.clone()),
            ControllerState::Unavailable(reason) => Some(reason.clone()),
            _ => None,
        }
    }
}

/// The state a published tag and reason stand for, if the pair is one that is ever
/// published: the plain states carry no reason, the failure states carry one.
pub open spec fn spec_from_parts(mode: Seq<char>, reason: Option<Seq<char>>) -> Option<ControllerStateView> {
    if mode == "idle"@ && reason is None {
        Some(ControllerStateView::Idle)
    } else if mode == "recording"@ && reason is None {
        Some(ControllerStateView::Recording)
    } else if mode == "processing"@ && reason is None {
        Some(ControllerStateView::Processing)
    } else if mode == "degraded"@ && reason is Some {
        Some(ControllerStateView::Degraded(reason->0))
    } else if mode == "unavailable"@ && reason is Some {
        Some(ControllerStateView::Unavailable(reason->0))
    } else {
        None
    }
}

impl ControllerState {
    /// Reads a state back from its published tag and reason.
    pub fn from_parts(mode: &str, reason: Option<String>) -> (r: Option<ControllerState>)
        ensures
            match spec_from_parts(mode@, opt_view(reason)) {
                Some(expected) => r matches Some(state) && state@ == expected,
                None => r is None,
            },
    {
        match reason {
            None => {
                if text_eq(mode, "idle") {
                    Some(ControllerState::Idle)
                } else if text_eq(mode, "recording") {
                    Some(ControllerState::Recording)
                } else if text_eq(mode, "processing") {
                    Some(ControllerState::Processing)
                } else {
                    None
                }
            },
            Some(text) => {
                proof {
                    lemma_tags_differ();
                }
                if text_eq(mode, "degraded") {
                    Some(ControllerState::Degraded(text))
                } else if text_eq(mode, "unavailable") {
                    Some(ControllerState::Unavailable(text))
                } else {
                    None
                }
            },
        }
    }
}

/// The five tags are pairwise different.
pub proof fn lemma_tags_differ()
    ensures
        "idle"@ != "recording"@,
        "idle"@ != "processing"@,
        "idle"@ != "degraded"@,
        "idle"@ != "unavailable"@,
        "recording"@ != "processing"@,
        "recording"@ != "degraded"@,
        "recording"@ != "unavailable"@,
        "processing"@ != "degraded"@,
        "processing"@ != "unavailable"@,
        "degraded"@ != "unavailable"@,
{
    reveal_strlit("idle");
    reveal_strlit("recording");
    reveal_strlit("processing");
    reveal_strlit("degraded");
    reveal_strlit("unavailable");
    assert("idle"@.len() == 4);
    assert("recording"@.len() == 9);
    assert("processing"@.len() == 10);
    assert("degraded"@.len() == 8);
    assert("unavailable"@.len() == 11);
}

/// Publishing a state as tag and reason and reading it back gives the same state.
pub proof fn lemma_state_round_trips(state: ControllerStateView)
    ensures
        spec_from_parts(state.mode(), state.reason()) == Some(state),
{
    lemma_tags_differ();
}

} // verus!
