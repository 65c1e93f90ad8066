use keep_inside::scoreboard::Scoreboard;

#[test]
fn new_scoreboard_is_blank() {
    assert_eq!(Scoreboard::new(), Scoreboard { score: 0, best: 0 });
}

#[test]
fn start_keeps_the_higher_score_as_best() {
    let mut board = Scoreboard { score: 7, best: 3 };
    board.start();
    assert_eq!(board, Scoreboard { score: 0, best: 7 });
}

#[test]
fn start_keeps_an_older_best() {
    let mut board = Scoreboard { score: 2, best: 5 };
    board.start();
    assert_eq!(board, Scoreboard { score: 0, best: 5 });
}

#[test]
fn start_with_equal_score_and_best() {
    let mut board = Scoreboard { score: 4, best: 4 };
    board.start();
    assert_eq!(board, Scoreboard { score: 0, best: 4 });
}

#[test]
fn start_twice_changes_nothing_more() {
    let mut board = Scoreboard { score: 9, best: 1 };
    board.start();
    board.start();
    assert_eq!(board, Scoreboard { score: 0, best: 9 });
}

#[test]
fn add_hits_counts_into_score_only() {
    let mut board = Scoreboard { score: 3, best: 8 };
    board.add_hits(0);
    assert_eq!(board, Scoreboard { score: 3, best: 8 });
    board.add_hits(1);
    assert_eq!(board, Scoreboard { score: 4, best: 8 });
    board.add_hits(2);
    assert_eq!(board, Scoreboard { score: 6, best: 8 });
}

#[test]
fn add_hits_up_to_the_limit() {
    let mut board = Scoreboard { score: usize::MAX - 2, best: 0 };
    board.add_hits(2);
    assert_eq!(board.score, usize::MAX);
}

#[test]
fn best_never_falls_over_many_rallies() {
    let mut board = Scoreboard::new();
    let mut best_so_far = 0;
    for rally in [3usize, 0, 12, 5, 12, 13, 1] {
        board.add_hits(rally);
        assert_eq!(board.score, rally);
        board.start();
        assert!(board.best >= best_so_far);
        best_so_far = best_so_far.max(rally);
        assert_eq!(board.best, best_so_far);
    }
    assert_eq!(board.best, 13);
}
