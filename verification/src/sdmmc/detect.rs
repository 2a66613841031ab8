//! Whether the device may work, as the card comes and goes.

use vstd::prelude::*;

verus! {

/// Whether the device has a card to work on.
#[derive(Clone, Copy, Debug, PartialEq, Eq)]
pub enum AppState {
    NotReady,
    Ready,
}

/// What to do with the lamp that shows a missing card.
#[derive(Clone, Copy, Debug, PartialEq, Eq)]
pub enum Lamp {
    Keep,
    On,
    Off,
}

/// The state after a look at the card's detect pin: a card that has come
/// makes a device ready and puts the lamp out; a card that has gone makes it
/// not ready and lights the lamp; otherwise nothing changes.
pub open spec fn spec_sdmmc_detect(state: AppState, attached: bool) -> (AppState, Lamp) {
    if state is NotReady && attached {
        (AppState::Ready, Lamp::Off)
    } else if !(state is NotReady) && !attached {
        (AppState::NotReady, Lamp::On)
    } else {
        (state, Lamp::Keep)
    }
}

pub fn sdmmc_detect(state: AppState, attached: bool) -> (next: (AppState, Lamp))
    ensures
        next == spec_sdmmc_detect(state, attached),
{
    match state {
        AppState::NotReady => {
            if attached {
                (AppState::Ready, Lamp::Off)
            } else {
                (state, Lamp::Keep)
            }
        },
        AppState::Ready => {
            if !attached {
                (AppState::NotReady, Lamp::On)
            } else {
                (state, Lamp::Keep)
            }
        },
    }
}

/// After every look the state says whether a card is there, and the lamp is
/// touched only when the state changes.
pub proof fn lemma_detect_tracks_card(state: AppState, attached: bool)
    ensures
        spec_sdmmc_detect(state, attached).0 is Ready <==> attached,
        spec_sdmmc_detect(state, attached).1 is Keep <==> spec_sdmmc_detect(state, attached).0
            == state,
{
}

} // verus!
