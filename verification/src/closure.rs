//! What happens to a trade after its market's round is over.

use vstd::prelude::*;

use crate::ledger::{CycleTrade, Position, PositionView, TradeView, DUST};
use crate::market::{text_of, Side};

verus! {

/// Where an open trade stands.
#[derive(Clone, Copy, Debug, PartialEq, Eq, Structural)]
pub enum ClosureStep {
    /// The round is not over.
    StillRunning,
    /// The market was closed before.
    AlreadyProcessed,
    /// The exchange is to be asked how the market was resolved.
    Query { time_since_close: u64, minutes_since_close: u64, seconds_since_close: u64 },
}

/// One token of a market, as the exchange reports it.
#[derive(Debug)]
pub struct ResolvedToken {
    pub token_id: String,
    pub winner: bool,
}

/// A market, as the exchange reports it after the round.
#[derive(Debug)]
pub struct ResolvedMarket {
    pub closed: bool,
    pub tokens: Vec<ResolvedToken>,
}

/// Whether a token, where there is one, is among the winners.
pub open spec fn wins(tokens: Seq<ResolvedToken>, token_id: Option<Seq<char>>) -> bool {
    match token_id {
        Some(id) => exists|i: int|
            0 <= i < tokens.len() && (#[trigger] tokens[i]).token_id@ == id && tokens[i].winner,
        None => false,
    }
}

/// A redemption of winning shares on the chain.
#[derive(Debug)]
pub struct Redemption {
    pub condition_id: String,
    pub token_id: String,
    pub side: Side,
    pub units: i64,
}

/// A redemption of winning shares on the chain.
pub struct RedemptionView {
    pub condition_id: Seq<char>,
    pub token_id: Seq<char>,
    pub side: Side,
    pub units: int,
}

impl View for Redemption {
    type V = RedemptionView;

    open spec fn view(&self) -> RedemptionView {
        RedemptionView {
            condition_id: self.condition_id@,
            token_id: self.token_id@,
            side: self.side,
            units: self.units as int,
        }
    }
}

/// The redemption of one position: of a winning one that is more than dust, and
/// none in simulation mode.
pub open spec fn redemption_of(
    simulation_mode: bool,
    condition_id: Seq<char>,
    side: Side,
    position: PositionView,
    winner: bool,
) -> Seq<RedemptionView> {
    match position.token_id {
        Some(token_id) if !simulation_mode && winner && position.shares > DUST => seq![
            RedemptionView { condition_id, token_id, side, units: position.shares },
        ],
        _ => Seq::empty(),
    }
}

/// All redemptions that a resolved trade calls for, Up first.
pub open spec fn redemptions_of(
    simulation_mode: bool,
    condition_id: Seq<char>,
    trade: TradeView,
    up_wins: bool,
    down_wins: bool,
) -> Seq<RedemptionView> {
    redemption_of(simulation_mode, condition_id, Side::Up, trade.up, up_wins) + redemption_of(
        simulation_mode,
        condition_id,
        Side::Down,
        trade.down,
        down_wins,
    )
}

/// What the exchange's answer comes to.
#[derive(Debug)]
pub enum Resolution {
    /// The exchange has not closed the market yet. `report` is set once a minute,
    /// and all through the first minute.
    NotClosed { report: bool },
    /// The market is resolved.
    Closed { up_wins: bool, down_wins: bool, redemptions: Vec<Redemption> },
}

/// The views of a list of redemptions.
pub open spec fn redemption_views(redemptions: Seq<Redemption>) -> Seq<RedemptionView> {
    redemptions.map_values(|r: Redemption| r@)
}

impl Resolution {
    /// Whether this is what the exchange's answer about a trade's market comes to.
    pub open spec fn answers(
        self,
        simulation_mode: bool,
        trade: &CycleTrade,
        market: ResolvedMarket,
        time_since_close: u64,
    ) -> bool {
        match self {
            Resolution::NotClosed { report } => {
                &&& !market.closed
                &&& report == (time_since_close % 60 == 0 || time_since_close < 60)
            },
            Resolution::Closed { up_wins, down_wins, redemptions } => {
                &&& market.closed
                &&& up_wins == wins(market.tokens@, trade@.up.token_id)
                &&& down_wins == wins(market.tokens@, trade@.down.token_id)
                &&& redemption_views(redemptions@) == redemptions_of(
                    simulation_mode,
                    trade.condition_id@,
                    trade@,
                    up_wins,
                    down_wins,
                )
            },
        }
    }
}

/// Whether a token is among the winners.
fn is_winner(tokens: &Vec<ResolvedToken>, token_id: &Option<String>) -> (r: bool)
    ensures
        r == wins(tokens@, text_of(*token_id)),
{
    match token_id {
        Some(id) => {
            let mut i: usize = 0;
            while i < tokens.len()
                invariant
                    i <= tokens@.len(),
                    text_of(*token_id) == Some(id@),
                    forall|j: int|
                        0 <= j < i ==> !((#[trigger] tokens@[j]).token_id@ == id@
                            && tokens@[j].winner),
                decreases tokens@.len() - i,
            {
                if tokens[i].token_id == *id && tokens[i].winner {
                    return true;
                }
                i = i + 1;
            }
            false
        },
        None => false,
    }
}

/// Adds the redemption of one position to a list, where it is due.
fn push_redemption(
    redemptions: &mut Vec<Redemption>,
    simulation_mode: bool,
    condition_id: &String,
    side: Side,
    position: &Position,
    winner: bool,
)
    ensures
        redemption_views(final(redemptions)@) == redemption_views(old(redemptions)@)
            + redemption_of(simulation_mode, condition_id@, side, position@, winner),
{
    if !simulation_mode && winner && position.shares > DUST {
        if let Some(token_id) = &position.token_id {
            redemptions.push(
                Redemption {
                    condition_id: condition_id.clone(),
                    token_id: token_id.clone(),
                    side,
                    units: position.shares,
                },
            );
        }
    }
    assert(redemption_views(redemptions@) =~= redemption_views(old(redemptions)@) + redemption_of(
        simulation_mode,
        condition_id@,
        side,
        position@,
        winner,
    ));
}

/// Reads the exchange's answer about the market of a trade.
pub(crate) fn resolve(
    simulation_mode: bool,
    trade: &CycleTrade,
    market: &ResolvedMarket,
    time_since_close: u64,
) -> (r: Resolution)
    ensures
        r.answers(simulation_mode, trade, *market, time_since_close),
{
    if !market.closed {
        return Resolution::NotClosed {
            report: time_since_close % 60 == 0 || time_since_close < 60,
        };
    }
    let up_wins: bool = is_winner(&market.tokens, &trade.up.token_id);
    let down_wins: bool = is_winner(&market.tokens, &trade.down.token_id);
    let mut redemptions: Vec<Redemption> = Vec::new();
    push_redemption(
        &mut redemptions,
        simulation_mode,
        &trade.condition_id,
        Side::Up,
        &trade.up,
        up_wins,
    );
    push_redemption(
        &mut redemptions,
        simulation_mode,
        &trade.condition_id,
        Side::Down,
        &trade.down,
        down_wins,
    );
    assert(redemption_views(redemptions@) =~= redemptions_of(
        simulation_mode,
        trade.condition_id@,
        trade@,
        up_wins,
        down_wins,
    ));
    Resolution::Closed { up_wins, down_wins, redemptions }
}

/// Outside simulation what is redeemed is exactly the winning positions: each side
/// that wins with more than a thousandth of a share is redeemed once, by its own
/// token, with all of its shares and under the trade's market, and nothing else is.
/// Up goes first. Simulation redeems nothing.
pub proof fn law_winning_positions_are_redeemed(
    simulation_mode: bool,
    condition_id: Seq<char>,
    trade: TradeView,
    up_wins: bool,
    down_wins: bool,
)
    ensures
        ({
            let all = redemptions_of(simulation_mode, condition_id, trade, up_wins, down_wins);
            let up_due = !simulation_mode && up_wins && trade.up.shares > 1_000_000
                && trade.up.token_id is Some;
            let down_due = !simulation_mode && down_wins && trade.down.shares > 1_000_000
                && trade.down.token_id is Some;
            &&& all.len() == (if up_due { 1int } else { 0 }) + (if down_due { 1int } else { 0 })
            &&& up_due ==> {
                &&& all[0].side == Side::Up
                &&& Some(all[0].token_id) == trade.up.token_id
                &&& all[0].units == trade.up.shares
                &&& all[0].condition_id == condition_id
            }
            &&& down_due ==> {
                &&& all.last().side == Side::Down
                &&& Some(all.last().token_id) == trade.down.token_id
                &&& all.last().units == trade.down.shares
                &&& all.last().condition_id == condition_id
            }
        }),
{
}

/// What an answer of the exchange comes to. A market that it has not closed settles
/// nothing. In a closed one a side wins if and only if its token is reported as a
/// winner, and every token that is redeemed is one that the exchange reports as a
/// winner and that the trade holds.
pub proof fn law_only_winners_are_redeemed(
    r: Resolution,
    simulation_mode: bool,
    trade: &CycleTrade,
    market: ResolvedMarket,
    time_since_close: u64,
)
    requires
        r.answers(simulation_mode, trade, market, time_since_close),
    ensures
        r is Closed <==> market.closed,
        r matches Resolution::NotClosed { report } ==> (report <==> time_since_close < 60
            || time_since_close % 60 == 0),
        r matches Resolution::Closed { up_wins, down_wins, redemptions } ==> {
            &&& up_wins <==> trade.up.token_id is Some && exists|i: int|
                0 <= i < market.tokens@.len() && (#[trigger] market.tokens@[i]).winner
                    && market.tokens@[i].token_id@ == trade.up.token_id->0@
            &&& down_wins <==> trade.down.token_id is Some && exists|i: int|
                0 <= i < market.tokens@.len() && (#[trigger] market.tokens@[i]).winner
                    && market.tokens@[i].token_id@ == trade.down.token_id->0@
            &&& simulation_mode ==> redemptions@.len() == 0
            &&& forall|k: int|
                0 <= k < redemptions@.len() ==> {
                    let redeemed = #[trigger] redemptions@[k];
                    &&& exists|i: int|
                        0 <= i < market.tokens@.len() && (#[trigger] market.tokens@[i]).winner
                            && market.tokens@[i].token_id@ == redeemed.token_id@
                    &&& redeemed.condition_id@ == trade.condition_id@
                    &&& redeemed.side == Side::Up ==> {
                        &&& up_wins
                        &&& trade.up.shares > 1_000_000
                        &&& redeemed.token_id@ == trade.up.token_id->0@
                        &&& redeemed.units == trade.up.shares
                    }
                    &&& redeemed.side == Side::Down ==> {
                        &&& down_wins
                        &&& trade.down.shares > 1_000_000
                        &&& redeemed.token_id@ == trade.down.token_id->0@
                        &&& redeemed.units == trade.down.shares
                    }
                }
            &&& !simulation_mode && up_wins && trade.up.shares > 1_000_000
                ==> redemptions@.len() > 0 && redemptions@[0].side == Side::Up
            &&& !simulation_mode && down_wins && trade.down.shares > 1_000_000
                ==> redemptions@.len() > 0 && redemptions@.last().side == Side::Down
            &&& redemptions@.len() <= 2
            &&& redemptions@.len() == 2 ==> redemptions@[0].side != redemptions@[1].side
        },
{
    if let Resolution::Closed { up_wins, down_wins, redemptions } = r {
        let views = redemption_views(redemptions@);
        law_winning_positions_are_redeemed(
            simulation_mode,
            trade.condition_id@,
            trade@,
            up_wins,
            down_wins,
        );
        assert(views.len() == redemptions@.len());
        assert(forall|k: int|
            0 <= k < redemptions@.len() ==> views[k] == (#[trigger] redemptions@[k])@);
        assert forall|k: int| 0 <= k < redemptions@.len() implies {
            let redeemed = #[trigger] redemptions@[k];
            &&& exists|i: int|
                0 <= i < market.tokens@.len() && (#[trigger] market.tokens@[i]).winner
                    && market.tokens@[i].token_id@ == redeemed.token_id@
            &&& redeemed.condition_id@ == trade.condition_id@
            &&& redeemed.side == Side::Up ==> {
                &&& up_wins
                &&& trade.up.shares > 1_000_000
                &&& redeemed.token_id@ == trade.up.token_id->0@
                &&& redeemed.units == trade.up.shares
            }
            &&& redeemed.side == Side::Down ==> {
                &&& down_wins
                &&& trade.down.shares > 1_000_000
                &&& redeemed.token_id@ == trade.down.token_id->0@
                &&& redeemed.units == trade.down.shares
            }
        } by {
            assert(views[k] == redemptions@[k]@);
            assert(k == 0 || k == redemptions@.len() - 1);
        }
    }
}

} // verus!
