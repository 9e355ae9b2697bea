//! NVIDIA settings.

use vstd::prelude::*;

verus! {

/// The NVIDIA settings of a profile.
#[derive(Debug, Clone, PartialEq)]
pub struct NvidiaControl {
    /// The power limit in watts.
    pub power_limit_w: Option<u32>,
    /// Put the card's stock power limit back.
    pub reset_power_limit: bool,
    /// The settings beside these, carried along as text.
    pub rest: String,
}

pub struct NvidiaControlView {
    pub power_limit_w: Option<u32>,
    pub reset_power_limit: bool,
    pub rest: Seq<char>,
}

impl View for NvidiaControl {
    type V = NvidiaControlView;

    open spec fn view(&self) -> NvidiaControlView {
        NvidiaControlView {
            power_limit_w: self.power_limit_w,
            reset_power_limit: self.reset_power_limit,
            rest: self.rest@,
        }
    }
}

impl Default for NvidiaControl {
    fn default() -> (r: Self)
        ensures
            r@ == (NvidiaControlView {
                power_limit_w: None,
                reset_power_limit: false,
                rest: seq![],
            }),
    {
        let r = NvidiaControl {
            power_limit_w: None,
            reset_power_limit: false,
            rest: String::new(),
        };
        assert(r@.rest =~= seq![]);
        r
    }
}

} // verus!
