use casperclicker::address::Address;
use casperclicker::clicker::CasperClicker;

fn deployer() -> Address {
    Address::Account([7; 32])
}

fn deployed() -> CasperClicker {
    let mut contract = CasperClicker::new();
    contract.init();
    contract
}

#[test]
fn test_init() {
    let _contract = deployed();
}

#[test]
fn test_submit_valid_score() {
    let mut contract = deployed();
    let caller = deployer();

    let player_name = String::from("TestPlayer");
    let total_earned = 1000u64;
    let total_clicks = 100u64;
    let play_time = 60u64;
    let timestamp = 1700000000u64;

    contract
        .submit_score(
            caller,
            player_name.clone(),
            total_earned,
            total_clicks,
            play_time,
            timestamp,
        )
        .unwrap();

    assert!(contract.has_score(caller), "Score should be recorded");

    let score = contract.get_player_score(caller);
    assert!(score.is_some(), "Score should exist");

    let score = score.unwrap();
    assert_eq!(score.player_name, player_name, "Player name mismatch");
    assert_eq!(score.total_earned, total_earned, "Total earned mismatch");
    assert_eq!(score.total_clicks, total_clicks, "Total clicks mismatch");
    assert_eq!(score.play_time, play_time, "Play time mismatch");
}

#[test]
#[should_panic]
fn test_anti_cheat_excessive_earnings() {
    let mut contract = deployed();

    // 100k per click is above the limit: the submission is refused
    contract
        .submit_score(
            deployer(),
            String::from("Cheater"),
            1_000_000u64,
            10u64,
            10000u64,
            1700000000u64,
        )
        .unwrap();
}

#[test]
#[should_panic]
fn tests_test_anti_cheat_impossible_play_time() {
    let mut contract = deployed();

    // one second where at least 1000 are needed: the submission is refused
    contract
        .submit_score(
            deployer(),
            String::from("SpeedCheater"),
            100_000u64,
            50u64,
            1u64,
            1700000000u64,
        )
        .unwrap();
}

#[test]
fn test_zero_clicks() {
    let mut contract = deployed();
    let caller = deployer();

    contract
        .submit_score(caller, String::from("NoClicker"), 0u64, 0u64, 10u64, 1700000000u64)
        .unwrap();

    assert!(contract.has_score(caller), "Score should be recorded");
}

#[test]
fn test_max_valid_earnings_per_click() {
    let mut contract = deployed();
    let caller = deployer();

    let total_clicks = 100u64;
    let total_earned = 10_000u64 * total_clicks;
    let play_time = total_earned / 100;

    contract
        .submit_score(
            caller,
            String::from("MaxPlayer"),
            total_earned,
            total_clicks,
            play_time,
            1700000000u64,
        )
        .unwrap();

    assert!(contract.has_score(caller), "Score should be recorded");
}

#[test]
fn tests_test_update_score() {
    let mut contract = deployed();
    let caller = deployer();
    let player_name = String::from("UpdatePlayer");

    contract
        .submit_score(caller, player_name.clone(), 1000u64, 100u64, 60u64, 1700000000u64)
        .unwrap();

    let first_score = contract.get_player_score(caller).unwrap();
    assert_eq!(first_score.total_earned, 1000u64);

    contract
        .submit_score(caller, player_name.clone(), 2000u64, 200u64, 120u64, 1700000100u64)
        .unwrap();

    let updated_score = contract.get_player_score(caller).unwrap();
    assert_eq!(updated_score.total_earned, 2000u64, "Score should be updated");
    assert_eq!(updated_score.total_clicks, 200u64, "Clicks should be updated");
}

#[test]
fn test_nonexistent_player() {
    let contract = deployed();
    let caller = deployer();

    assert!(!contract.has_score(caller), "New player should not have score");

    let score = contract.get_player_score(caller);
    assert!(score.is_none(), "Score should not exist for new player");
}

#[test]
fn test_minimum_play_time_edge_case() {
    let mut contract = deployed();
    let caller = deployer();

    // 99 / 100 rounds down to 0, so one second is enough
    contract
        .submit_score(caller, String::from("EdgePlayer"), 99u64, 10u64, 1u64, 1700000000u64)
        .unwrap();

    assert!(contract.has_score(caller), "Score should be recorded");
}

#[test]
fn test_get_total_players() {
    let contract = deployed();

    let total = contract.get_total_players();
    assert_eq!(total, 0u64, "Total players should be 0 (placeholder)");
}
