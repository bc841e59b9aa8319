use guild_tags::fuzzy::{
    candidate_rank, exceeds_threshold, resolve, score_rank, settle, INFINITY_BITS, SIGN_BIT,
    THRESHOLD_BITS,
};

fn owned(names: &[&str]) -> Vec<String> {
    names.iter().map(|n| n.to_string()).collect()
}

#[test]
fn the_constants_are_the_bits_of_their_numbers() {
    assert_eq!(THRESHOLD_BITS, 0.80f64.to_bits());
    assert_eq!(INFINITY_BITS, f64::INFINITY.to_bits());
    assert_eq!(SIGN_BIT, (-0.0f64).to_bits());
}

#[test]
fn the_threshold_is_exclusive() {
    assert!(!exceeds_threshold(0.80f64.to_bits()));
    assert!(exceeds_threshold(0.80f64.to_bits() + 1));
    assert!(exceeds_threshold(0.81f64.to_bits()));
    assert!(exceeds_threshold(1.0f64.to_bits()));
    assert!(exceeds_threshold(f64::INFINITY.to_bits()));
    assert!(!exceeds_threshold(0.79f64.to_bits()));
    assert!(!exceeds_threshold(0.0f64.to_bits()));
    assert!(!exceeds_threshold((-1.0f64).to_bits()));
    assert!(!exceeds_threshold((-0.0f64).to_bits()));
    assert!(!exceeds_threshold(f64::NAN.to_bits()));
    assert!(!exceeds_threshold(f64::NEG_INFINITY.to_bits()));
}

#[test]
fn rank_orders_scores_as_numbers() {
    let ascending = [
        f64::NEG_INFINITY,
        -2.5,
        -1.0,
        -0.0,
        0.0,
        0.25,
        0.79,
        0.8,
        0.81,
        1.0,
        f64::INFINITY,
    ];
    for pair in ascending.windows(2) {
        assert!(score_rank(pair[0].to_bits()) < score_rank(pair[1].to_bits()));
    }
    assert_eq!(score_rank(0), 0x8000_0000_0000_0000);
    assert_eq!(score_rank(1.0f64.to_bits()), 0xBFF0_0000_0000_0000);
    assert_eq!(score_rank(u64::MAX), 0);
}

#[test]
fn candidate_rank_is_the_rank_of_the_similarity() {
    assert_eq!(candidate_rank("banana", &"banana".to_string()), score_rank(1.0f64.to_bits()));
    assert_eq!(candidate_rank("zzz", &"banana".to_string()), score_rank(0.0f64.to_bits()));
    assert_eq!(candidate_rank("", &"".to_string()), score_rank(1.0f64.to_bits()));
    assert_eq!(candidate_rank("", &"a".to_string()), score_rank(0.0f64.to_bits()));
    assert!(
        candidate_rank("banan", &"banana".to_string()) > candidate_rank("banan", &"bandit".to_string())
    );
    assert!(candidate_rank("banan", &"banana".to_string()) > score_rank(0.96f64.to_bits()));
    assert!(candidate_rank("banan", &"banana".to_string()) < score_rank(0.97f64.to_bits()));
}

#[test]
fn settle_goes_by_the_threshold() {
    assert_eq!(settle("banan", "banana", 0.9f64.to_bits()), "banana");
    assert_eq!(settle("banan", "banana", 0.8f64.to_bits()), "banan");
    assert_eq!(settle("banan", "banana", 0.0f64.to_bits()), "banan");
    assert_eq!(settle("banan", "banana", 1.0f64.to_bits()), "banana");
}

#[test]
fn without_candidates_the_request_stands() {
    assert_eq!(resolve("anything", &Vec::new()), "anything");
    assert_eq!(resolve("", &Vec::new()), "");
}

#[test]
fn a_close_candidate_replaces_the_request() {
    assert_eq!(resolve("banan", &owned(&["banana"])), "banana");
    assert_eq!(resolve("banana", &owned(&["banana"])), "banana");
    assert_eq!(resolve("cheeseburger", &owned(&["cheese fries"])), "cheese fries");
}

#[test]
fn a_distant_candidate_does_not() {
    assert_eq!(resolve("zzz", &owned(&["banana"])), "zzz");
    assert_eq!(resolve("Friedrich Nietzsche", &owned(&["Jean-Paul Sartre"])), "Friedrich Nietzsche");
}

#[test]
fn the_most_similar_candidate_wins_wherever_it_stands() {
    assert_eq!(resolve("banan", &owned(&["banana", "apple", "cherry"])), "banana");
    assert_eq!(resolve("banan", &owned(&["apple", "banana", "cherry"])), "banana");
    assert_eq!(resolve("banan", &owned(&["apple", "cherry", "banana"])), "banana");
    assert_eq!(resolve("banan", &owned(&["bandana", "banana", "banner"])), "banana");
    assert_eq!(resolve("zzz", &owned(&["apple", "cherry", "banana"])), "zzz");
}

#[test]
fn many_candidates_are_ranked_alike() {
    let mut names: Vec<String> = (0..500).map(|i| format!("name{}", i)).collect();
    names.push("banana".to_string());
    names.extend((500..1000).map(|i| format!("name{}", i)));
    assert_eq!(resolve("banan", &names), "banana");
    assert_eq!(resolve("name77", &names), "name77");
}
