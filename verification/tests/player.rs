use chopsticks::player::FINGERS;
use chopsticks::Hand;
use chopsticks::Player;

fn player_with(name: &str, left: u32, right: u32) -> Player {
    let mut player = Player::new(name.to_string());
    player.add(Hand::Left, left + 4);
    player.add(Hand::Right, right + 4);
    assert_eq!(player.hands(), (left, right));
    player
}

#[test]
fn new_player_has_one_finger_on_each_hand() {
    let player = Player::new("Player A".to_string());
    assert_eq!(player.name(), "Player A");
    assert_eq!(player.hands(), (1, 1));
}

#[test]
fn fingers_wrap_at_five() {
    assert_eq!(FINGERS, 5);
}

#[test]
fn safe_value_reduces_modulo_five() {
    let player = Player::new("P".to_string());
    assert_eq!(player.safe_value(0), 0);
    assert_eq!(player.safe_value(4), 4);
    assert_eq!(player.safe_value(5), 0);
    assert_eq!(player.safe_value(7), 2);
    assert_eq!(player.safe_value(u32::MAX), 0);
}

#[test]
fn add_changes_only_the_named_hand() {
    let mut player = Player::new("P".to_string());
    player.add(Hand::Left, 2);
    assert_eq!(player.hands(), (3, 1));
    player.add(Hand::Right, 3);
    assert_eq!(player.hands(), (3, 4));
    assert_eq!(player.name(), "P");
}

#[test]
fn add_wraps_to_zero_on_exactly_five() {
    let mut player = player_with("P", 3, 1);
    player.add(Hand::Left, 2);
    assert_eq!(player.hands(), (0, 1));
    player.add(Hand::Right, 4);
    assert_eq!(player.hands(), (0, 0));
}

#[test]
fn add_wraps_past_five() {
    let mut player = player_with("P", 4, 4);
    player.add(Hand::Left, 3);
    assert_eq!(player.hands(), (2, 4));
    player.add(Hand::Right, 4);
    assert_eq!(player.hands(), (2, 3));
}

#[test]
fn add_zero_changes_nothing() {
    let mut player = player_with("P", 0, 3);
    player.add(Hand::Left, 0);
    player.add(Hand::Right, 0);
    assert_eq!(player.hands(), (0, 3));
}

#[test]
fn add_reduces_values_of_any_size() {
    let mut player = player_with("P", 4, 2);
    // 4294967295 = 5 * 858993459, so the largest value adds nothing.
    player.add(Hand::Left, u32::MAX);
    assert_eq!(player.hands(), (4, 2));
    player.add(Hand::Right, u32::MAX - 1);
    assert_eq!(player.hands(), (4, 1));
    player.add(Hand::Left, 1_000_003);
    assert_eq!(player.hands(), (2, 1));
}

#[test]
fn hands_stay_below_five_after_many_adds() {
    let mut player = Player::new("P".to_string());
    let mut value: u32 = 1;
    for round in 0..200 {
        let hand = if round % 3 == 0 { Hand::Right } else { Hand::Left };
        player.add(hand, value);
        let (left, right) = player.hands();
        assert!(left <= 4 && right <= 4);
        value = value.wrapping_mul(2_654_435_761).wrapping_add(round);
    }
}

#[test]
fn add_matches_the_sum_modulo_five_for_every_start() {
    for start in 0..5u32 {
        for value in 0..23u32 {
            let mut player = player_with("P", start, 4 - start);
            player.add(Hand::Left, value);
            assert_eq!(player.hands(), ((start + value) % 5, 4 - start));
            let mut player = player_with("P", 4 - start, start);
            player.add(Hand::Right, value);
            assert_eq!(player.hands(), (4 - start, (start + value) % 5));
        }
    }
}

#[test]
fn split_with_empty_hands_fails() {
    let mut player = player_with("P", 0, 0);
    assert!(!player.split());
    assert_eq!(player.hands(), (0, 0));
}

#[test]
fn split_shares_an_even_right_hand() {
    let mut player = player_with("P", 0, 4);
    assert!(player.split());
    assert_eq!(player.hands(), (2, 2));
    let mut player = player_with("P", 0, 2);
    assert!(player.split());
    assert_eq!(player.hands(), (1, 1));
}

#[test]
fn split_shares_an_even_left_hand() {
    let mut player = player_with("P", 4, 0);
    assert!(player.split());
    assert_eq!(player.hands(), (2, 2));
    let mut player = player_with("P", 2, 0);
    assert!(player.split());
    assert_eq!(player.hands(), (1, 1));
}

#[test]
fn split_of_an_odd_hand_fails() {
    for odd in [1u32, 3] {
        let mut player = player_with("P", odd, 0);
        assert!(!player.split());
        assert_eq!(player.hands(), (odd, 0));
        let mut player = player_with("P", 0, odd);
        assert!(!player.split());
        assert_eq!(player.hands(), (0, odd));
    }
}

#[test]
fn split_with_two_live_hands_fails() {
    for left in 1..5u32 {
        for right in 1..5u32 {
            let mut player = player_with("P", left, right);
            assert!(!player.split());
            assert_eq!(player.hands(), (left, right));
        }
    }
}

#[test]
fn split_keeps_the_name() {
    let mut player = player_with("Player B", 0, 4);
    assert!(player.split());
    assert_eq!(player.name(), "Player B");
}

#[test]
fn render_marks_the_player_to_move() {
    let player = player_with("Player A", 3, 0);
    assert_eq!(player.render(true), "----- Player A (x) -----\nL: 3    R: 0\n");
    assert_eq!(player.render(false), "----- Player A ( ) -----\nL: 3    R: 0\n");
}

#[test]
fn render_of_a_fresh_player() {
    let player = Player::new(String::new());
    assert_eq!(player.render(false), "-----  ( ) -----\nL: 1    R: 1\n");
}
