//! The details of a game as a form hands them in, and the actions that
//! follow from them.

use crate::calendar::Date;
use crate::live_game::{is_annotation, step, ActionView, AnnotatedGameAction, GameView};
use crate::text::text_of;
use vstd::prelude::*;
use vstd::string::StringExecFns;

verus! {

/// What a [`GameDetails`] holds, as plain values.
pub struct DetailsView {
    pub white: Option<Seq<char>>,
    pub black: Option<Seq<char>>,
    pub date: Option<Seq<char>>,
    pub event: Option<Seq<char>>,
    pub site: Option<Seq<char>>,
    pub round: Option<Seq<char>>,
}

/// The fields of a form on the details of a game, each as the text that
/// was entered, or `None` where the form has no such field.
#[derive(Debug)]
pub struct GameDetails {
    pub white: Option<String>,
    pub black: Option<String>,
    pub date: Option<String>,
    pub event: Option<String>,
    pub site: Option<String>,
    pub round: Option<String>,
}

impl View for GameDetails {
    type V = DetailsView;

    open spec fn view(&self) -> DetailsView {
        DetailsView {
            white: text_of(self.white),
            black: text_of(self.black),
            date: text_of(self.date),
            event: text_of(self.event),
            site: text_of(self.site),
            round: text_of(self.round),
        }
    }
}

/// The actions of a list, as plain values.
pub open spec fn action_views(actions: Seq<AnnotatedGameAction>) -> Seq<ActionView> {
    Seq::new(actions.len(), |i: int| actions[i]@)
}

/// The text of a field, empty where the form has no such field.
pub open spec fn or_empty(field: Option<Seq<char>>) -> Seq<char> {
    match field {
        Some(text) => text,
        None => Seq::empty(),
    }
}

/// The action that names White: one where a name was entered.
pub open spec fn white_actions(d: DetailsView) -> Seq<ActionView> {
    match d.white {
        Some(name) => if name.len() > 0 {
            seq![ActionView::AddWhiteName(name)]
        } else {
            Seq::empty()
        },
        None => Seq::empty(),
    }
}

/// The action that names Black: one where a name was entered.
pub open spec fn black_actions(d: DetailsView) -> Seq<ActionView> {
    match d.black {
        Some(name) => if name.len() > 0 {
            seq![ActionView::AddBlackName(name)]
        } else {
            Seq::empty()
        },
        None => Seq::empty(),
    }
}

/// The action that dates the game: one where the text entered names a day.
pub open spec fn date_actions(d: DetailsView) -> Seq<ActionView> {
    match d.date {
        Some(text) => match Date::spec_parse(text) {
            Some(date) => seq![ActionView::ChangeDate(date)],
            None => Seq::empty(),
        },
        None => Seq::empty(),
    }
}

/// The action that names event, site and round: one where the form has an
/// event field. An event entered as `Casual` has no site and no round.
pub open spec fn event_actions(d: DetailsView) -> Seq<ActionView> {
    match d.event {
        Some(event) => if event == "Casual"@ {
            seq![
                ActionView::UpdateEventDetails {
                    event: "Casual"@,
                    site: Seq::empty(),
                    round: Seq::empty(),
                },
            ]
        } else {
            seq![
                ActionView::UpdateEventDetails {
                    event,
                    site: or_empty(d.site),
                    round: or_empty(d.round),
                },
            ]
        },
        None => Seq::empty(),
    }
}

/// The actions that follow from a form: names first, then the date, then
/// the event.
pub open spec fn actions_of(d: DetailsView) -> Seq<ActionView> {
    white_actions(d) + black_actions(d) + date_actions(d) + event_actions(d)
}

/// A form never asks for a move, a take-back, a result or a reset: each of
/// its actions leaves the positions and the recorded moves of a game alone.
pub proof fn lemma_details_keep_positions(d: DetailsView, i: int, g: GameView, today: Date)
    requires
        0 <= i < actions_of(d).len(),
    ensures
        is_annotation(actions_of(d)[i]),
        step(g, actions_of(d)[i], today).positions == g.positions,
        step(g, actions_of(d)[i], today).record.moves == g.record.moves,
{
}

fn unwrap_or_empty(field: Option<String>) -> (text: String)
    ensures
        text@ == or_empty(text_of(field)),
{
    match field {
        Some(text) => text,
        None => String::new(),
    }
}

impl GameDetails {
    /// The actions that follow from the form, in the order in which they
    /// are to be dispatched.
    pub fn actions(self) -> (out: Vec<AnnotatedGameAction>)
        ensures
            action_views(out@) == actions_of(self@),
    {
        let ghost d = self@;
        let mut out: Vec<AnnotatedGameAction> = Vec::new();
        assert(action_views(out@) =~= Seq::<ActionView>::empty());
        match self.white {
            Some(name) => {
                if !name.as_str().is_empty() {
                    out.push(AnnotatedGameAction::AddWhiteName(name));
                }
            },
            None => {},
        }
        assert(action_views(out@) =~= white_actions(d));
        match self.black {
            Some(name) => {
                if !name.as_str().is_empty() {
                    out.push(AnnotatedGameAction::AddBlackName(name));
                }
            },
            None => {},
        }
        assert(action_views(out@) =~= white_actions(d) + black_actions(d));
        match self.date {
            Some(text) => {
                match Date::parse(text.as_str()) {
                    Some(date) => {
                        out.push(AnnotatedGameAction::ChangeDate(date));
                    },
                    None => {},
                }
            },
            None => {},
        }
        assert(action_views(out@) =~= white_actions(d) + black_actions(d) + date_actions(d));
        match self.event {
            Some(event) => {
                let casual = String::from_str("Casual");
                if event == casual {
                    out.push(
                        AnnotatedGameAction::UpdateEventDetails {
                            event: casual,
                            site: String::new(),
                            round: String::new(),
                        },
                    );
                } else {
                    let site = unwrap_or_empty(self.site);
                    let round = unwrap_or_empty(self.round);
                    out.push(AnnotatedGameAction::UpdateEventDetails { event, site, round });
                }
            },
            None => {},
        }
        assert(action_views(out@) =~= actions_of(d));
        out
    }
}

} // verus!
