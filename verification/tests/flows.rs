use dd_bot::detect::Region;
use dd_bot::flows::common::{
    Action, Captured, Event, ImageSlot, ItemStatus, LineStyle, Note, Outcome, Probe, ReadyFlag, Store,
};
use dd_bot::flows::deposit::{deposit, DepositPhase};
use dd_bot::flows::fee::{collect_gold_fee, FeePhase};
use dd_bot::flows::gold::{claim_gold, return_gold, GoldPhase};
use dd_bot::flows::items::{claim_items, return_items, ItemsPhase};
use dd_bot::flows::launch::{open_game_go_to_lobby, open_game_go_to_lobby_no_state_change, LaunchPhase};
use dd_bot::flows::lobby::{return_to_lobby, LobbyPhase};
use dd_bot::flows::request::{send_trade_request, RequestPhase};
use dd_bot::pointer::KeyStroke;
use dd_bot::traders::{ReadyState, Trader, TradersContainer};

fn out(s: &str) -> Event {
    Event::Output(Some(Captured { succeeded: true, stdout: s.to_string() }))
}

fn trader_with(name: &str, channel: &str, discord: &str, gold: i32, items: &[&str], infos: &[&str]) -> Trader {
    let mut t = Trader::empty();
    t.in_game_id = name.to_string();
    t.discord_channel_id = channel.to_string();
    t.discord_id = discord.to_string();
    t.gold = gold;
    t.item_images = items.iter().map(|s| s.to_string()).collect();
    t.info_images = infos.iter().map(|s| s.to_string()).collect();
    t
}

fn is_finish(a: &Action, o: Outcome) -> bool {
    matches!(a, Action::Finish(x) if *x == o)
}

#[test]
fn a_deposit_records_gold_and_items_then_accepts() {
    let mut c = TradersContainer::new();
    c.append(trader_with("Bob", "c1", "d1", 0, &["item_a"], &["info_a"]));
    let mut d = deposit(&c, "Bob");
    assert!(matches!(d.step(&Event::Go), Action::CheckReady));
    assert!(matches!(d.step(&Event::Ready(ReadyState::True)),
        Action::Ask(Store::HasPaidFee { channel, discord }) if channel == "c1" && discord == "d1"));
    assert!(matches!(d.step(&Event::Paid(Some(true))), Action::SendTradeRequest(s) if s == "Bob"));
    assert!(matches!(d.step(&Event::Requested(Some(true))), Action::Detect(Probe::TraderReady)));
    assert!(matches!(d.step(&out("1 2 3 4")), Action::Detect(Probe::TradeCheckbox)));
    assert!(matches!(d.step(&out("1 2 3 4")), Action::ClickDetected { smooth: true, offset_y: 0 }));
    assert!(matches!(d.step(&Event::Clicked(true)), Action::Pause(300)));
    assert!(matches!(d.step(&Event::Go), Action::Detect(Probe::InspectItems)));
    assert!(matches!(d.step(&out("Could not detect")),
        Action::ActOnLines { output, style: LineStyle::Inspect { minimize: false } } if output == "Could not detect"));
    assert!(matches!(d.step(&Event::Go), Action::MoveAway));
    assert!(matches!(d.step(&Event::Go), Action::LeftClick));
    assert!(matches!(d.step(&Event::Go),
        Action::Download { url, slot: ImageSlot::Item } if url == "item_a"));
    assert!(matches!(d.step(&Event::Fetched(true)), Action::Detect(Probe::ItemInWindow)));
    assert!(matches!(d.step(&out("10 20 30 40")),
        Action::MoveToRegion(r) if r == Region { x1: 10, y1: 20, x2: 30, y2: 40 }));
    assert!(matches!(d.step(&Event::Go),
        Action::Download { url, slot: ImageSlot::Info } if url == "info_a"));
    assert!(matches!(d.step(&Event::Fetched(true)), Action::Detect(Probe::InfoMatch)));
    assert!(matches!(d.step(&out("5 5 6 6")), Action::ActOnLines { style: LineStyle::Misses, .. }));
    assert_eq!(d.pairs, vec![(0, 0)]);
    assert!(matches!(d.step(&Event::Go), Action::MoveAway));
    assert!(matches!(d.step(&Event::Go), Action::LeftClick));
    assert!(matches!(d.step(&Event::Go), Action::Detect(Probe::TraderReady)));
    assert!(matches!(d.step(&out("1 1 2 2")), Action::Detect(Probe::TraderGold)));
    assert!(matches!(d.step(&out("150\n")),
        Action::Ask(Store::AddGoldTraded { channel, discord, amount: 150 }) if channel == "c1" && discord == "d1"));
    assert!(matches!(d.step(&Event::Stored(true)),
        Action::Ask(Store::SetItemStatus { item_url, info_url, status: ItemStatus::InEscrow })
            if item_url == "item_a" && info_url == "info_a"));
    assert!(matches!(d.step(&Event::Stored(true)), Action::Detect(Probe::TradeCheckbox)));
    assert!(matches!(d.step(&out("9 9 10 10")), Action::ActOnLines { style: LineStyle::Confirm, .. }));
    assert!(matches!(d.step(&Event::Go), Action::ReturnToLobby));
    assert!(is_finish(&d.step(&Event::Go), Outcome::Succeeded(Note::TradeSuccessful)));
    assert!(is_finish(&d.step(&Event::Go), Outcome::Succeeded(Note::TradeSuccessful)));
}

#[test]
fn a_deposit_without_the_fee_fails_after_the_lobby() {
    let mut c = TradersContainer::new();
    c.append(trader_with("Bob", "c1", "d1", 0, &[], &[]));
    let mut d = deposit(&c, "Bob");
    d.step(&Event::Go);
    d.step(&Event::Ready(ReadyState::True));
    assert!(matches!(d.step(&Event::Paid(Some(false))), Action::ReturnToLobby));
    assert!(is_finish(&d.step(&Event::Go), Outcome::Failed(Note::FeeNotPaid)));
}

#[test]
fn a_deposit_waits_for_the_bot_and_starts_it() {
    let c = TradersContainer::new();
    let mut d = deposit(&c, "Nobody");
    d.step(&Event::Go);
    assert!(matches!(d.step(&Event::Ready(ReadyState::False)), Action::LaunchGame));
    assert!(matches!(d.step(&Event::Go), Action::CheckReady));
    assert!(matches!(d.step(&Event::Ready(ReadyState::Starting)), Action::Pause(2000)));
    assert!(matches!(d.step(&Event::Go), Action::CheckReady));
    assert!(matches!(d.step(&Event::Ready(ReadyState::True)), Action::ReturnToLobby));
    assert_eq!(d.phase, DepositPhase::Closing(Note::Panicked));
    assert!(is_finish(&d.step(&Event::Go), Outcome::Failed(Note::Panicked)));
}

#[test]
fn an_empty_deposit_fails_with_something_wrong() {
    let mut c = TradersContainer::new();
    c.append(trader_with("Bob", "c1", "d1", 0, &[], &[]));
    let mut d = deposit(&c, "Bob");
    for e in [Event::Go, Event::Ready(ReadyState::True), Event::Paid(Some(true)), Event::Requested(Some(true))] {
        d.step(&e);
    }
    for _ in 0..2 {
        d.step(&out("1 1 2 2"));
    }
    d.step(&Event::Clicked(true));
    d.step(&Event::Go);
    d.step(&out("Could not detect"));
    d.step(&Event::Go);
    d.step(&Event::Go);
    assert!(matches!(d.step(&Event::Go), Action::MoveAway));
    d.step(&Event::Go);
    assert!(matches!(d.step(&Event::Go), Action::Detect(Probe::TraderReady)));
    d.step(&out("1 1 2 2"));
    assert!(matches!(d.step(&out("No text detected")), Action::ReturnToLobby));
    assert_eq!(d.phase, DepositPhase::Leaving(Note::SomethingWrong));
    d.step(&Event::Go);
    assert!(is_finish(&d.step(&Event::Go), Outcome::Failed(Note::SomethingWrong)));
}

#[test]
fn a_deposit_gives_up_on_a_panic() {
    let mut c = TradersContainer::new();
    c.append(trader_with("Bob", "c1", "d1", 0, &[], &[]));
    let mut d = deposit(&c, "Bob");
    d.step(&Event::Go);
    assert!(matches!(d.step(&Event::Panicked), Action::ReturnToLobby));
    assert!(is_finish(&d.step(&Event::Go), Outcome::Failed(Note::Panicked)));
}

fn claim_traders() -> TradersContainer {
    let mut c = TradersContainer::new();
    c.append(trader_with("Alice", "c", "a", 40, &["ia"], &["fa"]));
    c.append(trader_with("Bob", "c", "b", 100, &["ib"], &["fb"]));
    c
}

#[test]
fn a_claim_hands_over_the_other_sides_items() {
    let c = claim_traders();
    let mut t = claim_items(&c, "Alice");
    assert!(matches!(t.step(&Event::Go), Action::CheckReady));
    assert!(matches!(t.step(&Event::Ready(ReadyState::True)),
        Action::Ask(Store::EscrowCount { channel, discord }) if channel == "c" && discord == "b"));
    assert!(matches!(t.step(&Event::Count(Some(1))), Action::SendTradeRequest(s) if s == "Alice"));
    assert!(matches!(t.step(&Event::Requested(Some(true))), Action::Download { url, .. } if url == "ib"));
    assert!(matches!(t.step(&Event::Fetched(true)), Action::Detect(Probe::ItemInStorage)));
    assert!(matches!(t.step(&out("Could not detect")), Action::Detect(Probe::Stash)));
    assert!(matches!(t.step(&out("1 1 2 2")), Action::ClickDetected { smooth: true, offset_y: 0 }));
    assert!(matches!(t.step(&Event::Clicked(true)), Action::Detect(Probe::ItemInStorage)));
    assert!(matches!(t.step(&out("10 10 20 20")), Action::MoveToRegion(_)));
    assert!(matches!(t.step(&Event::Go), Action::Download { url, slot: ImageSlot::Info } if url == "fb"));
    assert!(matches!(t.step(&Event::Fetched(true)), Action::Detect(Probe::InfoMatch)));
    assert!(matches!(t.step(&out("3 3 4 4")), Action::LeftClick));
    assert!(matches!(t.step(&Event::Go), Action::Detect(Probe::TradeCheckbox)));
    assert!(matches!(t.step(&out("1 1 2 2")), Action::ClickDetected { .. }));
    assert!(matches!(t.step(&Event::Clicked(true)), Action::Detect(Probe::SecondPhase)));
    assert!(matches!(t.step(&out("1 1 2 2")), Action::Detect(Probe::InspectItems)));
    assert!(matches!(t.step(&out("Could not detect")),
        Action::ActOnLines { style: LineStyle::Inspect { minimize: true }, .. }));
    assert!(matches!(t.step(&Event::Go), Action::Download { url, slot: ImageSlot::Item } if url == "ib"));
    assert!(matches!(t.step(&Event::Fetched(true)), Action::Detect(Probe::ItemInWindow)));
    assert!(matches!(t.step(&out("10 10 20 20")), Action::MoveToRegion(_)));
    assert!(matches!(t.step(&Event::Go), Action::Download { url, .. } if url == "fb"));
    assert!(matches!(t.step(&Event::Fetched(true)), Action::Detect(Probe::InfoMatch)));
    assert!(matches!(t.step(&out("Could not detect")), Action::MoveAway));
    assert!(matches!(t.step(&Event::Go), Action::LeftClick));
    assert!(matches!(t.step(&Event::Go), Action::Detect(Probe::TraderReady)));
    assert!(matches!(t.step(&out("1 1 2 2")), Action::Detect(Probe::TradeCheckbox)));
    assert!(matches!(t.step(&out("1 1 2 2")), Action::ActOnLines { style: LineStyle::Confirm, .. }));
    assert!(matches!(t.step(&Event::Go),
        Action::Ask(Store::SetItemStatus { item_url, info_url, status: ItemStatus::Traded })
            if item_url == "ib" && info_url == "fb"));
    assert!(matches!(t.step(&Event::Stored(false)), Action::ReturnToLobby));
    assert!(is_finish(&t.step(&Event::Go), Outcome::Succeeded(Note::TradeSuccessful)));
}

#[test]
fn a_return_gives_the_callers_own_items_back() {
    let c = claim_traders();
    let mut t = return_items(&c, "Alice");
    t.step(&Event::Go);
    assert!(matches!(t.step(&Event::Ready(ReadyState::True)),
        Action::Ask(Store::EscrowCount { discord, .. }) if discord == "a"));
    t.step(&Event::Count(Some(2)));
    assert!(matches!(t.step(&Event::Requested(Some(true))), Action::Download { url, .. } if url == "ia"));
}

#[test]
fn a_claim_with_nothing_in_escrow_ends_at_once() {
    let c = claim_traders();
    let mut t = claim_items(&c, "Alice");
    t.step(&Event::Go);
    t.step(&Event::Ready(ReadyState::True));
    assert!(matches!(t.step(&Event::Count(Some(0))), Action::ReturnToLobby));
    assert!(is_finish(&t.step(&Event::Go), Outcome::Failed(Note::NoEscrowItems)));
}

#[test]
fn a_claim_without_another_side_gives_up() {
    let mut c = TradersContainer::new();
    c.append(trader_with("Alice", "c", "a", 40, &[], &[]));
    let mut t = claim_items(&c, "Alice");
    assert!(t.trader.is_none());
    t.step(&Event::Go);
    t.step(&Event::Ready(ReadyState::True));
    assert_eq!(t.phase, ItemsPhase::Closing(Note::Panicked));
}

#[test]
fn a_claim_drops_items_that_did_not_reach_the_window() {
    let c = claim_traders();
    let mut t = claim_items(&c, "Alice");
    for e in [Event::Go, Event::Ready(ReadyState::True), Event::Count(Some(1)), Event::Requested(Some(true)), Event::Fetched(true)] {
        t.step(&e);
    }
    t.step(&out("10 10 20 20"));
    t.step(&Event::Go);
    t.step(&Event::Fetched(true));
    t.step(&out("3 3 4 4"));
    t.step(&Event::Go);
    t.step(&out("1 1 2 2"));
    t.step(&Event::Clicked(true));
    t.step(&out("1 1 2 2"));
    t.step(&out(""));
    t.step(&Event::Go);
    t.step(&Event::Fetched(true));
    t.step(&out("10 10 20 20"));
    t.step(&Event::Go);
    t.step(&Event::Fetched(true));
    assert!(matches!(t.step(&Event::Output(None)), Action::ReturnToLobby));
    assert_eq!(t.phase, ItemsPhase::Leaving(Note::NoItemsFound));
    assert_eq!(t.passed, vec![false]);
}

#[test]
fn a_claim_records_exactly_the_items_that_passed_the_check() {
    let mut c = TradersContainer::new();
    c.append(trader_with("Alice", "c", "a", 40, &[], &[]));
    c.append(trader_with("Bob", "c", "b", 100, &["i0", "i1"], &["f0"]));
    let mut t = claim_items(&c, "Alice");
    for e in [Event::Go, Event::Ready(ReadyState::True), Event::Count(Some(2)), Event::Requested(Some(true))] {
        t.step(&e);
    }
    for _ in 0..2 {
        t.step(&Event::Fetched(true));
        t.step(&out("10 10 20 20"));
        t.step(&Event::Go);
        t.step(&Event::Fetched(true));
        t.step(&out("3 3 4 4"));
        t.step(&Event::Go);
    }
    assert_eq!(t.pairs, vec![(0, 0), (0, 1)]);
    assert_eq!(t.phase, ItemsPhase::FindCheckbox);
    t.step(&out("1 1 2 2"));
    t.step(&Event::Clicked(true));
    t.step(&out("1 1 2 2"));
    t.step(&out(""));
    t.step(&Event::Go);
    t.step(&Event::Fetched(true));
    t.step(&out("10 10 20 20"));
    t.step(&Event::Go);
    t.step(&Event::Fetched(true));
    assert!(matches!(t.step(&Event::Output(None)),
        Action::Download { url, slot: ImageSlot::Item } if url == "i1"));
    assert_eq!(t.passed, vec![false, true]);
    t.step(&Event::Fetched(true));
    t.step(&out("10 10 20 20"));
    t.step(&Event::Go);
    t.step(&Event::Fetched(true));
    assert!(matches!(t.step(&out("Could not detect")), Action::MoveAway));
    t.step(&Event::Go);
    assert!(matches!(t.step(&Event::Go), Action::Detect(Probe::TraderReady)));
    t.step(&out("1 1 2 2"));
    t.step(&out("1 1 2 2"));
    assert!(matches!(t.step(&Event::Go),
        Action::Ask(Store::SetItemStatus { item_url, info_url, status: ItemStatus::Traded })
            if item_url == "i1" && info_url == "f0"));
    assert!(matches!(t.step(&Event::Stored(true)), Action::ReturnToLobby));
    assert!(is_finish(&t.step(&Event::Go), Outcome::Succeeded(Note::TradeSuccessful)));
}

#[test]
fn a_claim_the_trader_does_not_accept_fails() {
    let c = claim_traders();
    let mut t = claim_items(&c, "Alice");
    for e in [Event::Go, Event::Ready(ReadyState::True), Event::Count(Some(1)), Event::Requested(Some(true)), Event::Fetched(true)] {
        t.step(&e);
    }
    t.step(&out("10 10 20 20"));
    t.step(&Event::Go);
    t.step(&Event::Fetched(true));
    t.step(&out("3 3 4 4"));
    t.step(&Event::Go);
    t.step(&out("1 1 2 2"));
    t.step(&Event::Clicked(true));
    assert!(matches!(t.step(&out("Could not detect")), Action::ReturnToLobby));
    assert_eq!(t.phase, ItemsPhase::Leaving(Note::TradeNotAccepted));
}

#[test]
fn a_claim_stops_taking_items_once_the_window_is_full() {
    let infos: Vec<String> = (0..30).map(|k| format!("f{}", k)).collect();
    let info_refs: Vec<&str> = infos.iter().map(|s| s.as_str()).collect();
    let mut c = TradersContainer::new();
    c.append(trader_with("Alice", "c", "a", 40, &[], &[]));
    c.append(trader_with("Bob", "c", "b", 100, &["i0", "i1"], &info_refs));
    let mut t = claim_items(&c, "Alice");
    for e in [Event::Go, Event::Ready(ReadyState::True), Event::Count(Some(2)), Event::Requested(Some(true)), Event::Fetched(true)] {
        t.step(&e);
    }
    t.step(&out("10 10 20 20"));
    t.step(&Event::Go);
    for _ in 0..25 {
        t.step(&Event::Fetched(true));
        t.step(&out("3 3 4 4"));
        t.step(&Event::Go);
    }
    assert_eq!(t.pairs.len(), 25);
    assert_eq!(t.phase, ItemsPhase::FindCheckbox);
}

#[test]
fn a_gold_claim_pays_in_pouches_and_records_it() {
    let c = claim_traders();
    let mut g = claim_gold(&c, "Alice");
    assert!(matches!(g.step(&Event::Go), Action::CheckReady));
    assert!(matches!(g.step(&Event::Ready(ReadyState::True)), Action::SendTradeRequest(s) if s == "Alice"));
    assert!(matches!(g.step(&Event::Requested(Some(true))), Action::Detect(Probe::Pouches50)));
    assert!(matches!(g.step(&out("1 1 2 2\n3 3 4 4\n")), Action::Pause(500)));
    assert!(matches!(g.step(&Event::Go), Action::Detect(Probe::Pouches35)));
    assert!(matches!(g.step(&out("Could not detect")), Action::Detect(Probe::Stash)));
    assert!(matches!(g.step(&out("5 5 6 6")), Action::ClickDetected { .. }));
    assert!(matches!(g.step(&Event::Clicked(true)), Action::Pause(500)));
    assert!(matches!(g.step(&Event::Go), Action::Detect(Probe::Pouches50)));
    assert!(matches!(g.step(&out("Could not detect")), Action::Pause(500)));
    assert!(matches!(g.step(&Event::Go), Action::Detect(Probe::Pouches35)));
    assert!(matches!(g.step(&out("Could not detect")), Action::Detect(Probe::Inventory)));
    assert!(matches!(g.step(&out("7 7 8 8")), Action::ClickDetected { .. }));
    match g.step(&Event::Clicked(true)) {
        Action::ClickPouches(ts) => {
            assert_eq!(ts.len(), 2);
            assert_eq!(ts[0].0, ts[0].1);
            assert!((-8..10).contains(&ts[0].0));
            assert_eq!(ts[1].0 - 3, ts[1].1 - 3);
        },
        _ => panic!("expected pouch clicks"),
    }
    assert_eq!(g.plan, (2, 0, 0, 0));
    assert!(matches!(g.step(&Event::Go), Action::ClickPouches(ts) if ts.is_empty()));
    assert_eq!(g.clicked, 2);
    assert!(matches!(g.step(&Event::Go), Action::Detect(Probe::TraderReady)));
    assert!(matches!(g.step(&out("1 1 2 2")), Action::Detect(Probe::TradeCheckbox)));
    assert!(matches!(g.step(&out("1 1 2 2")), Action::ClickDetected { .. }));
    assert!(matches!(g.step(&Event::Clicked(true)), Action::Pause(300)));
    assert!(matches!(g.step(&Event::Go), Action::Detect(Probe::InspectItems)));
    assert!(matches!(g.step(&out("Could not detect")), Action::ActOnLines { .. }));
    assert!(matches!(g.step(&Event::Go), Action::Detect(Probe::BotGold)));
    assert!(matches!(g.step(&out("100")), Action::Detect(Probe::TraderReady)));
    assert!(matches!(g.step(&out("1 1 2 2")), Action::Detect(Probe::TradeCheckbox)));
    assert!(matches!(g.step(&out("1 1 2 2")), Action::ClickDetected { .. }));
    assert!(matches!(g.step(&Event::Clicked(true)),
        Action::Ask(Store::AddGoldReceived { channel, discord, amount: 100 }) if channel == "c" && discord == "b"));
    assert!(matches!(g.step(&Event::Stored(true)), Action::ReturnToLobby));
    assert!(is_finish(&g.step(&Event::Go), Outcome::Succeeded(Note::TradeSuccessful)));
}

#[test]
fn a_gold_claim_the_trader_does_not_accept_fails() {
    let c = claim_traders();
    let mut g = claim_gold(&c, "Alice");
    for e in [Event::Go, Event::Ready(ReadyState::True), Event::Requested(Some(true)), out("1 1 2 2\n3 3 4 4\n"), Event::Go, out("Could not detect"), out("5 5 6 6"), Event::Clicked(true), Event::Go, out("Could not detect"), Event::Go, out("Could not detect"), out("7 7 8 8"), Event::Clicked(true), Event::Go, Event::Go] {
        g.step(&e);
    }
    assert_eq!(g.phase, GoldPhase::AwaitReady);
    assert!(matches!(g.step(&out("Could not detect")), Action::ReturnToLobby));
    assert_eq!(g.phase, GoldPhase::Leaving(Note::TradeNotAccepted));
}

fn gold_until_inventory(g: &mut dd_bot::flows::gold::GoldTransfer, inv50: &str, stash50: &str) {
    for e in [Event::Go, Event::Ready(ReadyState::True), Event::Requested(Some(true))] {
        g.step(&e);
    }
    g.step(&out(inv50));
    g.step(&Event::Go);
    g.step(&out("Could not detect"));
    g.step(&out("5 5 6 6"));
    g.step(&Event::Clicked(true));
    g.step(&Event::Go);
    g.step(&out(stash50));
    g.step(&Event::Go);
    g.step(&out("Could not detect"));
    g.step(&out("7 7 8 8"));
}

#[test]
fn a_gold_return_records_the_gold_as_negative() {
    let c = claim_traders();
    let mut g = return_gold(&c, "Alice");
    gold_until_inventory(&mut g, "Could not detect", "1 1 2 2");
    assert!(matches!(g.step(&Event::Clicked(true)), Action::Detect(Probe::Stash)));
    assert_eq!(g.plan, (0, 1, 0, 0));
    assert!(matches!(g.step(&out("1 1 2 2")), Action::ClickDetected { .. }));
    assert!(matches!(g.step(&Event::Clicked(true)), Action::ClickPouches(ts) if ts.len() == 1));
    assert!(matches!(g.step(&Event::Go), Action::ClickPouches(ts) if ts.is_empty()));
    assert!(matches!(g.step(&Event::Go), Action::Detect(Probe::TraderReady)));
    for e in [out("x"), out("x"), Event::Clicked(true), Event::Go, out("Could not detect"), Event::Go, out("45"), out("x"), out("x")] {
        g.step(&e);
    }
    assert!(matches!(g.step(&Event::Clicked(true)),
        Action::Ask(Store::AddGoldReceived { discord, amount: -45, .. }) if discord == "a"));
}

#[test]
fn a_payout_below_the_least_is_refused() {
    let mut c = TradersContainer::new();
    c.append(trader_with("Alice", "c", "a", 40, &[], &[]));
    c.append(trader_with("Bob", "c", "b", 10, &[], &[]));
    let mut g = claim_gold(&c, "Alice");
    g.step(&Event::Go);
    assert!(matches!(g.step(&Event::Ready(ReadyState::True)), Action::ReturnToLobby));
    assert_eq!(g.phase, GoldPhase::Closing(Note::NotEnoughGoldLeft));
}

#[test]
fn a_payout_without_enough_pouches_fails() {
    let c = claim_traders();
    let mut g = claim_gold(&c, "Alice");
    gold_until_inventory(&mut g, "Could not detect", "Could not detect");
    assert!(matches!(g.step(&Event::Clicked(true)), Action::ReturnToLobby));
    assert_eq!(g.phase, GoldPhase::Leaving(Note::NotEnoughGold));
    g.step(&Event::Go);
    assert!(is_finish(&g.step(&Event::Go), Outcome::Failed(Note::NotEnoughGold)));
}

#[test]
fn a_payout_whose_final_click_fails_stops() {
    let c = claim_traders();
    let mut g = claim_gold(&c, "Alice");
    gold_until_inventory(&mut g, "1 1 2 2\n3 3 4 4", "Could not detect");
    for e in [Event::Clicked(true), Event::Go, Event::Go, out("x"), out("x"), Event::Clicked(true), Event::Go, out("Could not detect"), Event::Go, out("No text detected"), out("x"), out("x")] {
        g.step(&e);
    }
    assert_eq!(g.phase, GoldPhase::ClickFinal);
    assert!(matches!(g.step(&Event::Clicked(false)), Action::ReturnToLobby));
    assert_eq!(g.phase, GoldPhase::Leaving(Note::ClickFailed));
}

#[test]
fn collects_the_fee_and_marks_it_paid() {
    let mut f = collect_gold_fee("Bob", "d1", "c1");
    assert!(matches!(f.step(&Event::Go), Action::CheckReady));
    assert!(matches!(f.step(&Event::Ready(ReadyState::True)), Action::SendTradeRequest(s) if s == "Bob"));
    assert!(matches!(f.step(&Event::Requested(Some(true))), Action::Detect(Probe::GoldFee)));
    assert!(matches!(f.step(&out("1 1 2 2")), Action::Detect(Probe::TradeCheckbox)));
    assert!(matches!(f.step(&out("1 1 2 2")), Action::ClickDetected { .. }));
    assert!(matches!(f.step(&Event::Clicked(true)), Action::Detect(Probe::GoldFeeDoubleCheck)));
    assert!(matches!(f.step(&out("1 1 2 2")), Action::Detect(Probe::InspectItems)));
    assert!(matches!(f.step(&out("Could not detect")), Action::ActOnLines { .. }));
    assert!(matches!(f.step(&Event::Go), Action::Detect(Probe::TradeCheckbox)));
    assert!(matches!(f.step(&out("1 1 2 2")), Action::ClickDetected { .. }));
    assert!(matches!(f.step(&Event::Clicked(true)),
        Action::Ask(Store::SetFeePaid { channel, discord }) if channel == "c1" && discord == "d1"));
    assert!(matches!(f.step(&Event::Stored(true)),
        Action::MarkFeePaid { discord, channel } if discord == "d1" && channel == "c1"));
    assert!(matches!(f.step(&Event::Go), Action::ReturnToLobby));
    assert!(is_finish(&f.step(&Event::Go), Outcome::Succeeded(Note::FeeCollected)));
    assert_eq!(f.phase, FeePhase::Done(Outcome::Succeeded(Note::FeeCollected)));
}

#[test]
fn a_fee_that_is_not_put_in_fails() {
    let mut f = collect_gold_fee("Bob", "d1", "c1");
    f.step(&Event::Go);
    f.step(&Event::Ready(ReadyState::True));
    f.step(&Event::Requested(Some(true)));
    assert!(matches!(f.step(&Event::Output(None)), Action::ReturnToLobby));
    assert_eq!(f.phase, FeePhase::Leaving(Note::FeeMissing));
}

#[test]
fn a_fee_the_detector_does_not_see_fails() {
    let mut f = collect_gold_fee("Bob", "d1", "c1");
    f.step(&Event::Go);
    f.step(&Event::Ready(ReadyState::True));
    f.step(&Event::Requested(Some(true)));
    assert!(matches!(f.step(&out("Could not detect")), Action::ReturnToLobby));
    assert_eq!(f.phase, FeePhase::Leaving(Note::FeeMissing));
    f.step(&Event::Go);
    assert!(is_finish(&f.step(&Event::Go), Outcome::Failed(Note::FeeMissing)));
    let mut f = collect_gold_fee("Bob", "d1", "c1");
    for e in [Event::Go, Event::Ready(ReadyState::True), Event::Requested(Some(true)), out("1 1 2 2"), out("1 1 2 2"), Event::Clicked(true)] {
        f.step(&e);
    }
    assert!(matches!(f.step(&out("Could not detect")), Action::ReturnToLobby));
    assert_eq!(f.phase, FeePhase::Leaving(Note::FeeMissing));
}

#[test]
fn a_fee_whose_record_fails_is_not_collected() {
    let mut f = collect_gold_fee("Bob", "d1", "c1");
    for e in [Event::Go, Event::Ready(ReadyState::True), Event::Requested(Some(true)), out("1 1 2 2"), out("1 1 2 2"), Event::Clicked(true), out("1 1 2 2"), out("Could not detect"), Event::Go, out("1 1 2 2")] {
        f.step(&e);
    }
    assert!(matches!(f.step(&Event::Clicked(true)), Action::Ask(Store::SetFeePaid { .. })));
    assert!(matches!(f.step(&Event::Stored(false)), Action::ReturnToLobby));
    assert_eq!(f.phase, FeePhase::Leaving(Note::FeeNotRecorded));
    f.step(&Event::Go);
    assert!(is_finish(&f.step(&Event::Go), Outcome::Failed(Note::FeeNotRecorded)));
}

#[test]
fn a_trade_request_types_the_name_in_lower_case() {
    let mut r = send_trade_request("BoB");
    assert!(matches!(r.step(&Event::Go), Action::Detect(Probe::TradeTab)));
    assert!(matches!(r.step(&out("1 1 2 2")), Action::ClickDetected { .. }));
    assert!(matches!(r.step(&Event::Clicked(true)), Action::Detect(Probe::UtilityTrade)));
    assert!(matches!(r.step(&out("1 1 2 2")), Action::ClickDetected { .. }));
    assert!(matches!(r.step(&Event::Clicked(true)), Action::Detect(Probe::PresentTrader)));
    assert!(matches!(r.step(&out("1 1 2 2")), Action::Detect(Probe::FindId)));
    assert!(matches!(r.step(&out("1 1 2 2")), Action::ClickDetected { smooth: true, offset_y: -33 }));
    assert!(matches!(r.step(&Event::Clicked(true)), Action::Keys(KeyStroke::ClearField)));
    assert!(matches!(r.step(&Event::Go), Action::TypeText(s) if s == "bob"));
    assert!(matches!(r.step(&Event::Go), Action::ClickRightAt { x: 1824, y: 312 }));
    assert!(matches!(r.step(&Event::Go), Action::Detect(Probe::SendRequest)));
    assert!(matches!(r.step(&out("Could not detect")), Action::ReturnToLobby));
    assert_eq!(r.phase, RequestPhase::Leaving(Note::TraderDeclined));
}

#[test]
fn a_trade_request_with_no_trade_tab_gives_up() {
    let mut r = send_trade_request("Bob");
    r.step(&Event::Go);
    assert!(matches!(r.step(&out("Could not detect")), Action::ReturnToLobby));
    assert!(is_finish(&r.step(&Event::Go), Outcome::Failed(Note::TraderAbsent)));
}

#[test]
fn going_back_to_the_lobby_stops_when_already_there() {
    let mut l = return_to_lobby();
    assert!(matches!(l.step(&Event::Go), Action::Detect(Probe::InPlayTab)));
    assert!(is_finish(&l.step(&out("1 1 2 2")), Outcome::Completed));
    assert_eq!(l.phase, LobbyPhase::Done(Outcome::Completed));
}

#[test]
fn going_back_to_the_lobby_restarts_the_game_when_all_else_fails() {
    let mut l = return_to_lobby();
    l.step(&Event::Go);
    assert!(matches!(l.step(&out("Could not detect")), Action::Detect(Probe::PlayTab)));
    assert!(matches!(l.step(&out("Could not detect")), Action::Keys(KeyStroke::Escape)));
    assert!(matches!(l.step(&Event::Go), Action::Detect(Probe::LeavePost)));
    assert!(matches!(l.step(&out("Could not detect")), Action::Detect(Probe::PlayTabFast)));
    assert!(matches!(l.step(&out("Could not detect")), Action::Keys(KeyStroke::Escape)));
    l.step(&Event::Go);
    assert!(matches!(l.step(&out("Could not detect")), Action::Detect(Probe::PlayTab)));
    assert!(matches!(l.step(&out("Could not detect")), Action::Keys(KeyStroke::ShowDesktop)));
    assert!(matches!(l.step(&Event::Go), Action::Detect(Probe::StopGame)));
    assert!(matches!(l.step(&out("Could not detect")), Action::RestartGame));
    assert!(is_finish(&l.step(&Event::Go), Outcome::Completed));
}

#[test]
fn opening_the_game_marks_the_bot_starting_then_ready() {
    let mut g = open_game_go_to_lobby(true);
    assert!(matches!(g.step(&Event::Go), Action::SetReady(ReadyFlag::Starting)));
    assert!(matches!(g.step(&Event::Go), Action::Keys(KeyStroke::ShowDesktop)));
    assert!(matches!(g.step(&Event::Go), Action::Keys(KeyStroke::Windows)));
    assert!(matches!(g.step(&Event::Go), Action::Pause(1000)));
    assert!(matches!(g.step(&Event::Go), Action::TypeText(s) if s == "blacksmith"));
    assert!(matches!(g.step(&Event::Go), Action::Pause(2000)));
    assert!(matches!(g.step(&Event::Go), Action::Keys(KeyStroke::Enter)));
    assert!(matches!(g.step(&Event::Go), Action::Detect(Probe::Update)));
    assert!(matches!(g.step(&out("Could not detect")), Action::Detect(Probe::LauncherPlay)));
    assert!(matches!(g.step(&out("1 1 2 2")), Action::ClickDetected { smooth: false, .. }));
    assert!(matches!(g.step(&Event::Clicked(true)), Action::Detect(Probe::OkayStart)));
    assert!(matches!(g.step(&out("1 1 2 2")), Action::ClickDetected { smooth: true, .. }));
    assert!(matches!(g.step(&Event::Clicked(true)), Action::Detect(Probe::EnterLobby)));
    assert!(matches!(g.step(&out("1 1 2 2")), Action::ClickDetected { smooth: true, .. }));
    assert!(matches!(g.step(&Event::Clicked(true)), Action::SetReady(ReadyFlag::Ready)));
    assert!(is_finish(&g.step(&Event::Go), Outcome::Completed));
    assert_eq!(g.phase, LaunchPhase::Done(Outcome::Completed));
}

#[test]
fn restarting_the_game_leaves_the_readiness_alone() {
    let mut g = open_game_go_to_lobby_no_state_change(false);
    assert!(matches!(g.step(&Event::Go), Action::Detect(Probe::Update)));
    assert!(matches!(g.step(&out("1 1 2 2")), Action::ClickDetected { smooth: false, .. }));
    assert!(matches!(g.step(&Event::Clicked(true)), Action::Detect(Probe::LauncherPlayFast)));
    let mut g = open_game_go_to_lobby_no_state_change(false);
    g.step(&Event::Go);
    assert!(matches!(g.step(&out("Could not detect")), Action::Detect(Probe::LauncherPlayFast)));
}

fn deposit_at_item_fetch(items: &[&str], infos: &[&str]) -> dd_bot::flows::deposit::Deposit {
    let mut c = TradersContainer::new();
    c.append(trader_with("Bob", "c1", "d1", 0, items, infos));
    let mut d = deposit(&c, "Bob");
    for e in [Event::Go, Event::Ready(ReadyState::True), Event::Paid(Some(true)), Event::Requested(Some(true))] {
        d.step(&e);
    }
    d.step(&out("1 1 2 2"));
    d.step(&out("1 1 2 2"));
    d.step(&Event::Clicked(true));
    d.step(&Event::Go);
    d.step(&out("Could not detect"));
    d.step(&Event::Go);
    d.step(&Event::Go);
    d.step(&Event::Go);
    d
}

#[test]
fn a_deposit_whose_request_is_declined_fails() {
    let mut c = TradersContainer::new();
    c.append(trader_with("Bob", "c1", "d1", 0, &[], &[]));
    let mut d = deposit(&c, "Bob");
    for e in [Event::Go, Event::Ready(ReadyState::True), Event::Paid(Some(true))] {
        d.step(&e);
    }
    assert!(matches!(d.step(&Event::Requested(Some(false))), Action::ReturnToLobby));
    assert_eq!(d.phase, DepositPhase::Leaving(Note::PlayerDeclinedTrade));
}

#[test]
fn a_deposit_not_accepted_by_the_trader_fails() {
    let mut c = TradersContainer::new();
    c.append(trader_with("Bob", "c1", "d1", 0, &[], &[]));
    let mut d = deposit(&c, "Bob");
    for e in [Event::Go, Event::Ready(ReadyState::True), Event::Paid(Some(true)), Event::Requested(Some(true))] {
        d.step(&e);
    }
    d.step(&Event::Output(None));
    assert_eq!(d.phase, DepositPhase::Leaving(Note::TradeNotAccepted));
    let mut d = deposit(&c, "Bob");
    for e in [Event::Go, Event::Ready(ReadyState::True), Event::Paid(Some(true)), Event::Requested(Some(true))] {
        d.step(&e);
    }
    assert!(matches!(d.step(&out("Could not detect")), Action::ReturnToLobby));
    assert_eq!(d.phase, DepositPhase::Leaving(Note::TradeNotAccepted));
}

#[test]
fn a_deposit_whose_image_does_not_download_fails() {
    let mut d = deposit_at_item_fetch(&["i"], &["f"]);
    assert_eq!(d.phase, DepositPhase::FetchItem { item: 0 });
    d.step(&Event::Fetched(false));
    assert_eq!(d.phase, DepositPhase::Leaving(Note::DownloadFailed));
}

#[test]
fn a_deposit_whose_item_record_fails_is_not_accepted() {
    let mut d = deposit_at_item_fetch(&["i"], &["f"]);
    d.step(&Event::Fetched(true));
    d.step(&out("10 20 30 40"));
    d.step(&Event::Go);
    d.step(&Event::Fetched(true));
    d.step(&out("5 5 6 6"));
    d.step(&Event::Go);
    d.step(&Event::Go);
    d.step(&Event::Go);
    d.step(&out("1 1 2 2"));
    assert!(matches!(d.step(&out("No text detected")), Action::Ask(Store::SetItemStatus { .. })));
    assert!(matches!(d.step(&Event::Stored(false)), Action::ReturnToLobby));
    assert_eq!(d.phase, DepositPhase::Leaving(Note::TradeError));
}

#[test]
fn a_deposit_whose_gold_record_fails_is_not_accepted() {
    let mut d = deposit_at_item_fetch(&[], &[]);
    d.step(&Event::Go);
    d.step(&Event::Go);
    d.step(&out("1 1 2 2"));
    assert!(matches!(d.step(&out("80")), Action::Ask(Store::AddGoldTraded { amount: 80, .. })));
    d.step(&Event::Stored(false));
    assert_eq!(d.phase, DepositPhase::Leaving(Note::GoldNotAdded));
}

#[test]
fn a_deposit_whose_gold_record_fails_is_refused_after_an_item_record() {
    let mut d = deposit_at_item_fetch(&["i"], &["f"]);
    d.step(&Event::Fetched(true));
    d.step(&out("10 20 30 40"));
    d.step(&Event::Go);
    d.step(&Event::Fetched(true));
    d.step(&out("5 5 6 6"));
    d.step(&Event::Go);
    d.step(&Event::Go);
    d.step(&Event::Go);
    d.step(&out("1 1 2 2"));
    assert!(matches!(d.step(&out("80")), Action::Ask(Store::AddGoldTraded { amount: 80, .. })));
    assert!(matches!(d.step(&Event::Stored(false)), Action::Ask(Store::SetItemStatus { .. })));
    assert!(matches!(d.step(&Event::Stored(true)), Action::ReturnToLobby));
    assert_eq!(d.phase, DepositPhase::Leaving(Note::GoldNotAdded));
    d.step(&Event::Go);
    assert!(is_finish(&d.step(&Event::Go), Outcome::Failed(Note::GoldNotAdded)));
}

#[test]
fn a_claim_whose_info_image_does_not_download_fails() {
    let c = claim_traders();
    let mut t = claim_items(&c, "Alice");
    for e in [Event::Go, Event::Ready(ReadyState::True), Event::Count(Some(1)), Event::Requested(Some(true)), Event::Fetched(true)] {
        t.step(&e);
    }
    t.step(&out("10 10 20 20"));
    t.step(&Event::Go);
    t.step(&Event::Fetched(false));
    assert_eq!(t.phase, ItemsPhase::Leaving(Note::PlayerDeclined));
}

#[test]
fn a_claim_whose_check_detector_fails_ends() {
    let c = claim_traders();
    let mut t = claim_items(&c, "Alice");
    for e in [Event::Go, Event::Ready(ReadyState::True), Event::Count(Some(1)), Event::Requested(Some(true)), Event::Fetched(true)] {
        t.step(&e);
    }
    t.step(&out("10 10 20 20"));
    t.step(&Event::Go);
    t.step(&Event::Fetched(true));
    t.step(&out("3 3 4 4"));
    t.step(&Event::Go);
    t.step(&out("1 1 2 2"));
    t.step(&Event::Clicked(true));
    t.step(&out("1 1 2 2"));
    t.step(&out(""));
    t.step(&Event::Go);
    t.step(&Event::Fetched(true));
    assert!(matches!(t.step(&Event::Output(None)), Action::ReturnToLobby));
    assert_eq!(t.phase, ItemsPhase::Leaving(Note::ItemNotFound));
}

#[test]
fn a_payout_whose_record_fails_ends_with_an_error() {
    let c = claim_traders();
    let mut g = claim_gold(&c, "Alice");
    gold_until_inventory(&mut g, "1 1 2 2\n3 3 4 4", "Could not detect");
    for e in [Event::Clicked(true), Event::Go, Event::Go, out("x"), out("x"), Event::Clicked(true), Event::Go, out("Could not detect"), Event::Go, out("100"), out("x"), out("x"), Event::Clicked(true)] {
        g.step(&e);
    }
    assert_eq!(g.phase, GoldPhase::Record);
    g.step(&Event::Stored(false));
    assert_eq!(g.phase, GoldPhase::Leaving(Note::GoldNotRecorded));
}

#[test]
fn a_trade_request_ends_in_the_trade_window() {
    let mut r = send_trade_request("Bob");
    r.step(&Event::Go);
    for e in [out("1 1 2 2"), Event::Clicked(true), out("1 1 2 2"), Event::Clicked(true), out("1 1 2 2"), out("1 1 2 2"), Event::Clicked(true), Event::Go, Event::Go, Event::Go, out("1 1 2 2")] {
        r.step(&e);
    }
    assert_eq!(r.phase, RequestPhase::ClickSend);
    assert!(matches!(r.step(&Event::Clicked(true)), Action::Detect(Probe::TradeScreen)));
    assert!(is_finish(&r.step(&out("1 1 2 2")), Outcome::Succeeded(Note::TradeAccepted)));
    let mut r = send_trade_request("Bob");
    r.step(&Event::Go);
    for e in [out("1 1 2 2"), Event::Clicked(true), out("1 1 2 2"), Event::Clicked(true), out("1 1 2 2"), out("1 1 2 2"), Event::Clicked(true), Event::Go, Event::Go, Event::Go, out("1 1 2 2"), Event::Clicked(true)] {
        r.step(&e);
    }
    r.step(&out("Could not detect"));
    assert_eq!(r.phase, RequestPhase::Leaving(Note::NoTradeWindow));
}

fn same_launch_input(a: &Action, b: &Action) -> bool {
    match (a, b) {
        (Action::Detect(Probe::LauncherPlay), Action::Detect(Probe::LauncherPlayFast)) => true,
        (Action::Detect(x), Action::Detect(y)) => x == y,
        (Action::Pause(x), Action::Pause(y)) => x == y,
        (Action::Keys(x), Action::Keys(y)) => x == y,
        (Action::TypeText(x), Action::TypeText(y)) => x == y,
        (Action::ClickDetected { smooth: s1, offset_y: o1 }, Action::ClickDetected { smooth: s2, offset_y: o2 }) => {
            s1 == s2 && o1 == o2
        },
        (Action::Finish(x), Action::Finish(y)) => x == y,
        _ => false,
    }
}

#[test]
fn both_kinds_of_game_start_send_the_same_inputs() {
    let through_launcher = vec![Event::Go, Event::Go, Event::Go, Event::Go, Event::Go, Event::Go, Event::Go, out("Could not detect"), out("1 1 2 2"), Event::Clicked(true), out("1 1 2 2"), Event::Clicked(true), out("1 1 2 2"), Event::Clicked(true)];
    let with_update = vec![Event::Go, out("1 1 2 2"), Event::Clicked(true), out("1 1 2 2"), Event::Clicked(true), out("1 1 2 2"), Event::Clicked(true), out("1 1 2 2"), Event::Clicked(true)];
    for (start_launcher, answers) in [(true, through_launcher), (false, with_update)] {
        let mut with_state = open_game_go_to_lobby(start_launcher);
        let mut plain = open_game_go_to_lobby_no_state_change(start_launcher);
        let mut marks = 0;
        let mut last = Action::Pause(0);
        for e in answers.iter() {
            let mut a = with_state.step(e);
            while matches!(a, Action::SetReady(_)) {
                marks += 1;
                a = with_state.step(&Event::Go);
            }
            let b = plain.step(e);
            assert!(same_launch_input(&a, &b));
            last = b;
        }
        assert_eq!(marks, 2);
        assert!(is_finish(&last, Outcome::Completed));
    }
}
