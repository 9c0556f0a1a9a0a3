//! The two ways to resolve a move, side by side: whichever is in use, a
//! commit asks the game for one move in the same way.

use crate::chess::Move;
use crate::configs::ExperienceLevel;
use crate::expert::{resolved, ExpertResolver, ExpertView};
use crate::live_game::{played, well_formed, AnnotatedGame, GameView};
use crate::position::{legal_moves_of, Position};
use crate::rookie::{nothing_chosen, RookieResolver, RookieView};
use vstd::prelude::*;

verus! {

/// What a [`Resolver`] holds, as plain values.
pub enum ResolverView {
    Expert(ExpertView),
    Rookie(RookieView),
}

/// The level that a resolver serves.
pub open spec fn level_of(v: ResolverView) -> ExperienceLevel {
    match v {
        ResolverView::Expert(_) => ExperienceLevel::Expert,
        ResolverView::Rookie(_) => ExperienceLevel::Rookie,
    }
}

/// The resolver for `level` in the position `fen`, with nothing entered.
pub open spec fn fresh(level: ExperienceLevel, fen: Seq<char>) -> ResolverView {
    match level {
        ExperienceLevel::Expert => ResolverView::Expert(resolved(fen, Seq::empty())),
        ExperienceLevel::Rookie => ResolverView::Rookie(nothing_chosen()),
    }
}

/// The move that a commit of `v` asks for: the move that the resolver
/// holds, for typed notation the ready move and for the choice by steps
/// the chosen move.
pub open spec fn proposal(v: ResolverView) -> Option<Move> {
    match v {
        ResolverView::Expert(e) => e.ready,
        ResolverView::Rookie(r) => r.resolved,
    }
}

/// The game after `v` is committed: the proposed move is asked for, and is
/// played where it is a legal move of the current position.
pub open spec fn committed(g: GameView, v: ResolverView) -> GameView {
    match proposal(v) {
        Some(m) => played(g, m),
        None => g,
    }
}

/// Both resolvers commit in the same way: holding the same move, or both
/// none, they leave the same game, the one that asking for that move gives.
pub proof fn lemma_commits_agree(g: GameView, e: ExpertView, r: RookieView)
    requires
        e.ready == r.resolved,
    ensures
        committed(g, ResolverView::Expert(e)) == committed(g, ResolverView::Rookie(r)),
        crate::expert::committed(g, e.ready) == crate::rookie::committed(g, r),
        committed(g, ResolverView::Expert(e)) == (match e.ready {
            Some(m) => played(g, m),
            None => g,
        }),
{
}

/// A held move that is no legal move of the current position is dropped by
/// either resolver: the game stays as it was.
pub proof fn lemma_stale_proposal_dropped(g: GameView, v: ResolverView, m: Move)
    requires
        proposal(v) == Some(m),
        !legal_moves_of(g.positions.last()).contains(m),
    ensures
        committed(g, v) == g,
{
}

/// The resolver in use.
#[derive(Debug)]
pub enum Resolver {
    Expert(ExpertResolver),
    Rookie(RookieResolver),
}

impl View for Resolver {
    type V = ResolverView;

    open spec fn view(&self) -> ResolverView {
        match self {
            Resolver::Expert(e) => ResolverView::Expert(e@),
            Resolver::Rookie(r) => ResolverView::Rookie(r@),
        }
    }
}

impl Resolver {
    /// The resolver for `level`, made for `position`, with nothing entered.
    pub fn for_level(level: ExperienceLevel, position: &Position) -> (r: Resolver)
        ensures
            r@ == fresh(level, position@),
    {
        match level {
            ExperienceLevel::Expert => Resolver::Expert(ExpertResolver::new(position)),
            ExperienceLevel::Rookie => Resolver::Rookie(RookieResolver::new()),
        }
    }

    /// The level that the resolver serves.
    pub fn level(&self) -> (l: ExperienceLevel)
        ensures
            l == level_of(self@),
    {
        match self {
            Resolver::Expert(_) => ExperienceLevel::Expert,
            Resolver::Rookie(_) => ExperienceLevel::Rookie,
        }
    }

    /// The resolver after the user switches to `level`: what was entered is
    /// dropped where the level changes, and kept where it does not.
    pub fn switch_to(self, level: ExperienceLevel, position: &Position) -> (r: Resolver)
        ensures
            r@ == (if level_of(self@) == level {
                self@
            } else {
                fresh(level, position@)
            }),
    {
        if self.level() == level {
            self
        } else {
            Resolver::for_level(level, position)
        }
    }

    /// Commits what was entered to `game` and starts over for the position
    /// that is current afterwards.
    pub fn commit(self, game: AnnotatedGame) -> (r: (Resolver, AnnotatedGame))
        ensures
            r.1@ == committed(game@, self@),
            well_formed(r.1@),
            r.0@ == fresh(level_of(self@), r.1@.positions.last()),
    {
        match self {
            Resolver::Expert(e) => {
                let (e, game) = e.commit(game);
                (Resolver::Expert(e), game)
            },
            Resolver::Rookie(r) => {
                let (r, game) = r.commit(game);
                (Resolver::Rookie(r), game)
            },
        }
    }
}

} // verus!
