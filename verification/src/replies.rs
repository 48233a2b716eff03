//! What the bot answers the Discord bot, and what it writes to the status
//! file the two bots share.

use vstd::prelude::*;
use crate::flows::common::{Outcome, note_text};
use crate::traders::ReadyState;
use crate::text::reads_as;

verus! {

/// The status line for the bot's readiness.
pub open spec fn ready_status_text(ready: ReadyState) -> Seq<char> {
    match ready {
        ReadyState::False => "TradeBot not ready"@,
        ReadyState::Starting => "TradeBot is starting. Please wait 2 minutes."@,
        ReadyState::True => "TradeBot ready"@,
    }
}

/// The status line for the bot's readiness.
pub fn ready_status(ready: ReadyState) -> (s: String)
    ensures
        s@ == ready_status_text(ready),
{
    let lit = match ready {
        ReadyState::False => "TradeBot not ready",
        ReadyState::Starting => "TradeBot is starting. Please wait 2 minutes.",
        ReadyState::True => "TradeBot ready",
    };
    lit.to_owned()
}

/// The answer to a fee or deposit request from the player `in_game_id`.
pub open spec fn ready_reply_text(ready: ReadyState, in_game_id: Seq<char>) -> Seq<char> {
    match ready {
        ReadyState::True => "Sending `"@ + in_game_id + "` a trade request in `The Bard's Theater #1` trading channel"@,
        _ => ready_status_text(ready),
    }
}

/// The answer to a fee or deposit request from the player `in_game_id`:
/// the readiness where the bot is not ready, else that it sends the trade
/// request.
pub fn ready_reply(ready: ReadyState, in_game_id: &str) -> (s: String)
    ensures
        s@ == ready_reply_text(ready, in_game_id@),
{
    match ready {
        ReadyState::True => "Sending `".to_owned().concat(in_game_id).concat(
            "` a trade request in `The Bard's Theater #1` trading channel",
        ),
        _ => ready_status(ready),
    }
}

/// How a procedure's outcome reads as a result: the message of
/// a success or of a failure; a procedure that reports nothing gives an
/// empty success.
pub open spec fn outcome_result(o: Outcome) -> Result<Seq<char>, Seq<char>> {
    match o {
        Outcome::Succeeded(n) => Ok(note_text(n)),
        Outcome::Failed(n) => Err(note_text(n)),
        Outcome::Completed => Ok(Seq::empty()),
    }
}

/// The status line after a deposit: `Trade successful!` or the failure's
/// message.
pub open spec fn deposit_status_text(o: Outcome) -> Seq<char> {
    match outcome_result(o) {
        Ok(_) => "Trade successful!"@,
        Err(e) => e,
    }
}

/// The status line after a deposit.
pub fn deposit_status(o: Outcome) -> (s: String)
    ensures
        s@ == deposit_status_text(o),
{
    match o {
        Outcome::Failed(n) => n.text(),
        _ => "Trade successful!".to_owned(),
    }
}

/// The status line after a claim: `Trade successful!`, `All items traded`
/// where nothing was left in escrow, or the failure's message.
pub open spec fn claim_status_text(o: Outcome) -> Seq<char> {
    match outcome_result(o) {
        Ok(_) => "Trade successful!"@,
        Err(e) => if e == "No items left in escrow"@ {
            "All items traded"@
        } else {
            e
        },
    }
}

/// The status line after a claim.
pub fn claim_status(o: Outcome) -> (s: String)
    ensures
        s@ == claim_status_text(o),
{
    match o {
        Outcome::Failed(n) => {
            let text = n.text();
            if reads_as(&crate::text::chars_of(text.as_str()), "No items left in escrow") {
                "All items traded".to_owned()
            } else {
                text
            }
        },
        _ => "Trade successful!".to_owned(),
    }
}

} // verus!
