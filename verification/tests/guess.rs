use logranges::guess::GuessOutcome;
use logranges::guess::Guesser;
use logranges::guess::guess_date_format;
use logranges::guess::guess_format;

#[test]
fn guesser_gives_up_after_five_nonmatching_lines() {
    let lines: Vec<String> = vec![
        "nothing here".to_string(),
        "still nothing".to_string(),
        "no timestamp at all".to_string(),
        "plain words".to_string(),
        "the fifth miss".to_string(),
        "23-Apr-2020 00:00:00.001 INFO too late, never read".to_string(),
    ];
    assert!(guess_format(&lines, 5).is_none());
}

#[test]
fn guesser_finds_a_format_within_budget() {
    let lines: Vec<String> = vec![
        "nothing here".to_string(),
        "Apr 26 10:05:02 localhost kernel: something".to_string(),
    ];
    let fmt = guess_format(&lines, 5).unwrap();
    assert_eq!("%Y-%b %d %T", fmt.fmt.as_str());
}

#[test]
fn streaming_guesser_counts_attempts() {
    let mut g = Guesser::new(5);
    for _ in 0..4 {
        assert!(matches!(g.observe("no timestamp"), GuessOutcome::Pending));
    }
    assert!(matches!(g.observe("still none"), GuessOutcome::GaveUp));
}

#[test]
fn streaming_guesser_answers_at_first_match() {
    let mut g = Guesser::new(5);
    assert!(matches!(g.observe("nothing yet"), GuessOutcome::Pending));
    match g.observe("10/Oct/2000:13:55:36 -0700 GET /") {
        GuessOutcome::Found(fmt) => assert_eq!("%d/%b/%Y:%T %z", fmt.fmt.as_str()),
        _ => panic!("expected a format"),
    }
}

#[test]
fn catalog_order_breaks_ties() {
    // the database style would also match, but the application-server style
    // stands earlier in the catalog
    let fmt = guess_date_format("23-Apr-2020 00:00:00.001 INFO x").unwrap();
    assert_eq!("%d-%b-%Y %T%.3f", fmt.fmt.as_str());
}

#[test]
fn no_known_format_means_none() {
    assert!(guess_date_format("an ordinary sentence").is_none());
}
