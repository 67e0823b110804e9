use showcase::scores::ScoreMap;

#[test]
fn high_scores_of_alice_and_bob() {
    let mut scores = ScoreMap::new();
    scores.insert("Alice", 100);
    scores.insert("Bob", 85);
    assert_eq!(scores.high_scores(90), vec![String::from("Alice: 100")]);
}

#[test]
fn empty_table_has_no_high_scores() {
    let scores = ScoreMap::new();
    assert!(scores.high_scores(90).is_empty());
}

#[test]
fn threshold_is_inclusive() {
    let mut scores = ScoreMap::new();
    scores.insert("Cy", 90);
    scores.insert("Di", 89);
    assert_eq!(scores.high_scores(90), vec![String::from("Cy: 90")]);
}

#[test]
fn insert_replaces_earlier_score() {
    let mut scores = ScoreMap::new();
    scores.insert("Alice", 50);
    scores.insert("Alice", 95);
    assert_eq!(scores.high_scores(90), vec![String::from("Alice: 95")]);
    scores.insert("Alice", 10);
    assert!(scores.high_scores(90).is_empty());
}

#[test]
fn negative_scores_are_written_with_sign() {
    let mut scores = ScoreMap::new();
    scores.insert("low", -7);
    scores.insert("min", i32::MIN);
    let mut lines = scores.high_scores(i32::MIN);
    lines.sort();
    assert_eq!(lines, vec![String::from("low: -7"), String::from("min: -2147483648")]);
}

#[test]
fn every_qualifying_name_appears_once() {
    let mut scores = ScoreMap::new();
    scores.insert("a", 91);
    scores.insert("b", 90);
    scores.insert("c", 3);
    scores.insert("a", 92);
    let mut lines = scores.high_scores(90);
    lines.sort();
    assert_eq!(lines, vec![String::from("a: 92"), String::from("b: 90")]);
}
