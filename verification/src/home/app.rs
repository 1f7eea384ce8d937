//! The Home application's state: the screen, and the battery line it keeps up
//! to date.

use vstd::prelude::*;
use vstd::string::*;

use crate::home::screen::{fact_lines, filed, HomeScreen};
use crate::text::{decimal, push_decimal, push_text};

verus! {

/// What the battery is doing.
#[derive(Debug, Clone, Copy, PartialEq, Eq, Structural)]
pub enum BatteryState {
    /// On external power, filling.
    Charging,
    /// On external power, full.
    Full,
    /// On its own.
    Discharging,
    /// Anything else.
    Other,
}

/// A battery reading.
#[derive(Debug, Clone, Copy, PartialEq, Eq, Structural)]
pub struct BatteryFact {
    /// How full it is.
    pub percent: u8,
    /// What it is doing.
    pub state: BatteryState,
}

/// The value of the battery line.
pub open spec fn battery_line(fact: BatteryFact) -> Seq<char> {
    decimal(fact.percent as nat) + "%"@ + (if fact.state is Charging || fact.state is Full {
        " (charging)"@
    } else {
        ""@
    })
}

/// The Home app.
///
/// The shelf's contents are supplied at construction. The battery fact needs no
/// grant, so Home asks for it itself, once, on its first frame.
#[derive(Debug)]
pub struct HomeApp {
    /// What the screen shows.
    pub screen: HomeScreen,
    /// Whether the battery has been asked for.
    pub asked_battery: bool,
}

impl HomeApp {
    /// Builds Home showing `screen` as its starting state.
    pub fn new(screen: HomeScreen) -> (app: Self)
        ensures
            app.screen == screen,
            !app.asked_battery,
    {
        Self { screen, asked_battery: false }
    }

    /// Whether the battery is to be asked for now, which it is once.
    pub fn ask_battery(&mut self) -> (ask: bool)
        ensures
            ask == !old(self).asked_battery,
            final(self).asked_battery,
            final(self).screen == old(self).screen,
    {
        let ask = !self.asked_battery;
        self.asked_battery = true;
        ask
    }

    /// Files a battery reading.
    pub fn apply_battery(&mut self, fact: BatteryFact)
        ensures
            fact_lines(final(self).screen.facts@) == filed(
                fact_lines(old(self).screen.facts@),
                "Battery"@,
                battery_line(fact),
            ),
            final(self).screen.entries == old(self).screen.entries,
            final(self).screen.pressed == old(self).screen.pressed,
            final(self).screen.status == old(self).screen.status,
            final(self).asked_battery == old(self).asked_battery,
    {
        let charging = matches!(fact.state, BatteryState::Charging | BatteryState::Full);
        let mut value = String::new();
        push_decimal(&mut value, fact.percent as u64);
        push_text(&mut value, "%");
        push_text(
            &mut value,
            if charging {
                " (charging)"
            } else {
                ""
            },
        );
        assert(value@ =~= battery_line(fact));
        self.screen.set_fact("Battery", value.as_str());
    }
}

} // verus!
