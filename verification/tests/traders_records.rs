use dd_bot::flows::common::{ItemStatus, Note, Outcome};
use dd_bot::records::{
    add_gold_to_trader, column_of, get_gold_for_user, get_links_for_user, has_paid_fee,
    item_status_text, populate_traders_from_db, set_gold_fee_status, set_item_status_by_urls,
    DbError, GoldRow, PaidRow, TraderRow, TraderSlot,
};
use dd_bot::replies::{claim_status, deposit_status, ready_reply, ready_status};
use dd_bot::traders::{ReadyState, Trader, TradersContainer};

fn person(name: &str, channel: &str, discord: &str, gold: i32) -> Trader {
    let mut t = Trader::empty();
    t.in_game_id = name.to_string();
    t.discord_channel_id = channel.to_string();
    t.discord_id = discord.to_string();
    t.gold = gold;
    t
}

fn row(discord: &str, channel: &str, gold: i32, paid: bool, item: Option<&str>, info: Option<&str>) -> TraderRow {
    TraderRow {
        discord_id: discord.to_string(),
        channel_id: channel.to_string(),
        gold,
        has_paid_gold_fee: paid,
        item_image_url: item.map(|s| s.to_string()),
        info_image_url: info.map(|s| s.to_string()),
    }
}

#[test]
fn finds_the_first_trader_under_a_name() {
    let mut c = TradersContainer::new();
    assert!(c.get_trader_by_in_game_id("Bob").is_none());
    c.append(person("Bob", "c1", "d1", 5));
    c.append(person("Bob", "c2", "d2", 7));
    assert_eq!(c.len(), 2);
    assert_eq!(c.get_trader_by_in_game_id("Bob").unwrap().gold, 5);
    assert_eq!(c.position_by_in_game_id("Bob"), Some(0));
    assert_eq!(c.position_by_in_game_id("bob"), None);
}

#[test]
fn a_trader_added_is_found_by_its_name() {
    let mut c = TradersContainer::new();
    c.append(person("Ann", "c1", "d1", 1));
    c.append(person("Cid", "c1", "d2", 2));
    assert_eq!(c.get_trader_by_in_game_id("Cid").unwrap().discord_id, "d2");
}

#[test]
fn finds_the_other_side_of_a_trade() {
    let mut c = TradersContainer::new();
    c.append(person("Ann", "c1", "d1", 1));
    c.append(person("Eve", "c2", "d3", 3));
    c.append(person("Cid", "c1", "d2", 2));
    assert_eq!(c.get_other_trader_in_channel("d1", "c1").unwrap().in_game_id, "Cid");
    assert_eq!(c.get_other_trader_in_channel("d2", "c1").unwrap().in_game_id, "Ann");
    assert!(c.get_other_trader_in_channel("d3", "c2").is_none());
    assert_eq!(c.position_of_user("d2", "c1"), Some(2));
    assert_eq!(c.position_of_user("d2", "c2"), None);
}

#[test]
fn marks_the_fee_of_the_first_trader_under_a_name() {
    let mut c = TradersContainer::new();
    c.append(person("Ann", "c1", "d1", 1));
    c.append(person("Ann", "c2", "d2", 2));
    c.update_gold_fee_status("Ann", true);
    assert!(c.get(0).has_paid_gold_fee);
    assert!(!c.get(1).has_paid_gold_fee);
    c.update_gold_fee_status("Nobody", true);
    assert!(!c.get(1).has_paid_gold_fee);
}

#[test]
fn marks_the_fee_of_a_trader_found_by_discord_user_and_channel() {
    let mut c = TradersContainer::new();
    c.append(person("Ann", "c1", "d1", 1));
    c.append(person("Bea", "c1", "d2", 2));
    c.append(person("Bea", "c2", "d2", 3));
    c.update_gold_fee_status_by_discord_info("d2", "c2", true);
    assert!(!c.get(0).has_paid_gold_fee);
    assert!(!c.get(1).has_paid_gold_fee);
    assert!(c.get(2).has_paid_gold_fee);
    c.update_gold_fee_status_by_discord_info("d2", "c9", true);
    assert!(!c.get(1).has_paid_gold_fee);
}

#[test]
fn a_renamed_trader_is_found_by_its_new_name() {
    let mut c = TradersContainer::new();
    c.append(person("", "c1", "d1", 1));
    c.append(person("", "c1", "d2", 2));
    c.set_in_game_id_by_discord_info("Zed", "d2", "c1");
    assert_eq!(c.get(0).in_game_id, "");
    assert_eq!(c.get_trader_by_in_game_id("Zed").unwrap().discord_id, "d2");
    c.set_in_game_id_by_discord_info("Yan", "d9", "c1");
    assert!(c.get_trader_by_in_game_id("Yan").is_none());
}

#[test]
fn copies_a_trader() {
    let mut t = person("Ann", "c1", "d1", 9);
    t.item_images = vec!["i".to_string()];
    t.has_paid_gold_fee = true;
    let u = t.copy();
    assert_eq!(u.in_game_id, "Ann");
    assert_eq!(u.item_images, vec!["i".to_string()]);
    assert!(u.has_paid_gold_fee);
    assert_eq!(u.gold, 9);
}

#[test]
fn splits_link_rows_into_items_and_infos() {
    let rows = vec![("i1".to_string(), "f1".to_string()), ("i2".to_string(), "f2".to_string())];
    let (items, infos) = get_links_for_user(&rows);
    assert_eq!(items, vec!["i1", "i2"]);
    assert_eq!(infos, vec!["f1", "f2"]);
}

#[test]
fn reads_the_fee_flag() {
    let r = PaidRow { trader1_id: 3, trader2_id: 4, trader1_paid: true, trader2_paid: false };
    assert_eq!(has_paid_fee(Some(3), &Some(r)), Ok(true));
    assert_eq!(has_paid_fee(Some(4), &Some(r)), Ok(false));
    assert_eq!(has_paid_fee(Some(5), &Some(r)), Ok(false));
    assert_eq!(has_paid_fee(None, &Some(r)), Ok(false));
    assert_eq!(has_paid_fee(Some(3), &None), Ok(false));
    let r = PaidRow { trader1_id: 3, trader2_id: 4, trader1_paid: false, trader2_paid: true };
    assert_eq!(has_paid_fee(Some(4), &Some(r)), Ok(true));
}

#[test]
fn a_fee_written_reads_back() {
    let before = PaidRow { trader1_id: 3, trader2_id: 4, trader1_paid: false, trader2_paid: false };
    let slot = set_gold_fee_status(Some(4), Some((3, 4))).unwrap();
    assert_eq!(column_of(slot, "paid"), "trader2_paid");
    let after = PaidRow { trader2_paid: true, ..before };
    assert_eq!(has_paid_fee(Some(4), &Some(after)), Ok(true));
    assert_eq!(has_paid_fee(Some(3), &Some(after)), Ok(false));
}

#[test]
fn reads_the_gold_of_a_side() {
    let g = Some(GoldRow { trader1_id: 3, trader2_id: 4, trader1_gold: 10, trader2_gold: 20 });
    assert_eq!(get_gold_for_user(Some(3), &g), Ok(10));
    assert_eq!(get_gold_for_user(Some(4), &g), Ok(20));
    assert_eq!(get_gold_for_user(Some(5), &g), Err(DbError::QueryReturnedNoRows));
    assert_eq!(get_gold_for_user(None, &g), Err(DbError::QueryReturnedNoRows));
    assert_eq!(get_gold_for_user(Some(3), &None), Err(DbError::QueryReturnedNoRows));
}

#[test]
fn picks_the_paid_flag_to_set() {
    assert_eq!(set_gold_fee_status(Some(3), Some((3, 4))), Ok(TraderSlot::First));
    assert_eq!(set_gold_fee_status(Some(4), Some((3, 4))), Ok(TraderSlot::Second));
    assert_eq!(set_gold_fee_status(Some(5), Some((3, 4))), Err(DbError::QueryReturnedNoRows));
    assert_eq!(set_gold_fee_status(None, Some((3, 4))), Err(DbError::QueryReturnedNoRows));
    assert_eq!(set_gold_fee_status(Some(3), None), Err(DbError::QueryReturnedNoRows));
    assert_eq!(column_of(TraderSlot::First, "paid"), "trader1_paid");
    assert_eq!(column_of(TraderSlot::Second, "gold_traded"), "trader2_gold_traded");
}

#[test]
fn picks_the_traded_gold_to_add_to() {
    assert_eq!(add_gold_to_trader(&Some("trader1".to_string())), Ok(TraderSlot::First));
    assert_eq!(add_gold_to_trader(&Some("trader2".to_string())), Ok(TraderSlot::Second));
    assert_eq!(add_gold_to_trader(&Some("other".to_string())), Ok(TraderSlot::Second));
    assert_eq!(add_gold_to_trader(&None), Err(DbError::QueryReturnedNoRows));
}

#[test]
fn two_gold_additions_go_to_one_column() {
    let role = Some("trader2".to_string());
    let first = add_gold_to_trader(&role).unwrap();
    let second = add_gold_to_trader(&role).unwrap();
    assert_eq!(first, second);
    assert_eq!(column_of(first, "gold_traded"), "trader2_gold_traded");
}

#[test]
fn an_item_update_must_change_a_row() {
    assert_eq!(set_item_status_by_urls(0), Err(DbError::QueryReturnedNoRows));
    assert_eq!(set_item_status_by_urls(1), Ok(()));
    assert_eq!(item_status_text(ItemStatus::InEscrow), "in escrow");
    assert_eq!(item_status_text(ItemStatus::Traded), "traded");
    assert_eq!(item_status_text(ItemStatus::Returned), "returned");
}

#[test]
fn groups_rows_into_one_trader_per_user_and_channel() {
    let mut c = TradersContainer::new();
    c.append(person("Old", "c0", "d0", 0));
    let rows = vec![
        row("d1", "c1", 100, true, Some("i1"), Some("f1")),
        row("d2", "c1", 50, false, None, None),
        row("d1", "c1", 999, false, Some("i2"), Some("f2")),
        row("d1", "c2", 7, false, Some("i3"), None),
        row("d2", "c1", 1, true, Some("i4"), Some("f4")),
    ];
    populate_traders_from_db(&mut c, &rows);
    assert_eq!(c.len(), 4);
    assert_eq!(c.get(0).in_game_id, "Old");
    let t = c.get(1);
    assert_eq!((t.discord_id.as_str(), t.discord_channel_id.as_str()), ("d1", "c1"));
    assert_eq!(t.item_images, vec!["i1", "i2"]);
    assert_eq!(t.info_images, vec!["f1", "f2"]);
    assert_eq!(t.gold, 100);
    assert!(t.has_paid_gold_fee);
    assert_eq!(t.in_game_id, "");
    let t = c.get(2);
    assert_eq!(t.discord_id, "d2");
    assert_eq!(t.item_images, vec!["i4"]);
    assert_eq!(t.gold, 50);
    assert!(!t.has_paid_gold_fee);
    let t = c.get(3);
    assert_eq!(t.discord_channel_id, "c2");
    assert!(t.item_images.is_empty());
    assert!(t.info_images.is_empty());
}

#[test]
fn answers_by_readiness() {
    assert_eq!(ready_status(ReadyState::False), "TradeBot not ready");
    assert_eq!(ready_status(ReadyState::Starting), "TradeBot is starting. Please wait 2 minutes.");
    assert_eq!(ready_status(ReadyState::True), "TradeBot ready");
    assert_eq!(ready_reply(ReadyState::False, "Bob"), "TradeBot not ready");
    assert_eq!(
        ready_reply(ReadyState::True, "Bob"),
        "Sending `Bob` a trade request in `The Bard's Theater #1` trading channel"
    );
}

#[test]
fn reports_how_a_trade_ended() {
    assert_eq!(deposit_status(Outcome::Succeeded(Note::TradeSuccessful)), "Trade successful!");
    assert_eq!(deposit_status(Outcome::Failed(Note::FeeNotPaid)), "User has not yet paid the gold fee");
    assert_eq!(claim_status(Outcome::Failed(Note::NoEscrowItems)), "All items traded");
    assert_eq!(claim_status(Outcome::Failed(Note::NotEnoughGold)), "Not enough gold");
    assert_eq!(claim_status(Outcome::Succeeded(Note::TradeSuccessful)), "Trade successful!");
    assert_eq!(Note::Panicked.text(), "Got error while trying to unwrap panic. Error: Any { .. }");
}
