use typing_trainer::window::{windows, LineRead, LinesGenerator};

fn source(lines: &[&str]) -> Vec<LineRead> {
    lines.iter().map(|line| LineRead::Line(line.to_string())).collect()
}

fn window(lines: &[&str]) -> Vec<String> {
    lines.iter().map(|line| line.to_string()).collect()
}

#[test]
fn three_lines_with_two_ahead() {
    let all = windows(&source(&["a", "b", "c"]), 2);
    assert_eq!(all, vec![window(&["a", "b", "c"]), window(&["b", "c"]), window(&["c"])]);
}

#[test]
fn three_lines_with_one_ahead() {
    let all = windows(&source(&["a", "b", "c"]), 1);
    assert_eq!(all, vec![window(&["a", "b"]), window(&["b", "c"]), window(&["c"])]);
}

#[test]
fn three_lines_with_none_ahead() {
    let all = windows(&source(&["a", "b", "c"]), 0);
    assert_eq!(all, vec![window(&["a"]), window(&["b"]), window(&["c"])]);
}

#[test]
fn one_window_per_line() {
    let lines = ["l0", "l1", "l2", "l3", "l4", "l5", "l6"];
    for count in 0..=lines.len() {
        for window_size in 0..10 {
            let all = windows(&source(&lines[..count]), window_size);
            assert_eq!(all.len(), count);
            for (i, held) in all.iter().enumerate() {
                let end = (i + window_size + 1).min(count);
                assert_eq!(held, &window(&lines[i..end]));
            }
        }
    }
}

#[test]
fn windows_shrink_by_one_as_the_source_drains() {
    let all = windows(&source(&["a", "b", "c", "d", "e"]), 2);
    let sizes: Vec<usize> = all.iter().map(|held| held.len()).collect();
    assert_eq!(sizes, vec![3, 3, 3, 2, 1]);
}

#[test]
fn empty_source_has_no_window() {
    assert_eq!(windows(&vec![], 3), Vec::<Vec<String>>::new());
    assert_eq!(windows(&vec![LineRead::Exhausted], 0), Vec::<Vec<String>>::new());
}

#[test]
fn failed_reads_vanish_from_the_windows() {
    let reads = vec![
        LineRead::Line("a".to_string()),
        LineRead::Failed,
        LineRead::Line("b".to_string()),
        LineRead::Failed,
        LineRead::Line("c".to_string()),
    ];
    // The first filling takes "a" and the failed read; "b" comes with the first
    // step, the second failed read with the second.
    let all = windows(&reads, 2);
    assert_eq!(all, vec![window(&["a", "b"]), window(&["b"]), window(&["c"])]);
}

#[test]
fn failed_read_on_an_empty_buffer_emits_an_empty_window() {
    let all = windows(&vec![LineRead::Failed], 0);
    assert_eq!(all, vec![window(&[])]);
}

#[test]
fn generator_is_filled_then_slid() {
    let mut generator = LinesGenerator::new(2);
    assert!(generator.prefilling());
    generator.prefill(LineRead::Line("a".to_string()));
    assert!(generator.prefilling());
    generator.prefill(LineRead::Line("b".to_string()));
    assert!(!generator.prefilling());
    assert_eq!(generator.next(LineRead::Line("c".to_string())), Some(window(&["a", "b", "c"])));
    assert_eq!(generator.next(LineRead::Exhausted), Some(window(&["b", "c"])));
    assert_eq!(generator.next(LineRead::Exhausted), Some(window(&["c"])));
    assert_eq!(generator.next(LineRead::Exhausted), None);
    assert_eq!(generator.next(LineRead::Exhausted), None);
}

#[test]
fn first_filling_ends_at_exhaustion() {
    let mut generator = LinesGenerator::new(5);
    generator.prefill(LineRead::Line("a".to_string()));
    assert!(generator.prefilling());
    generator.prefill(LineRead::Exhausted);
    assert!(!generator.prefilling());
    assert_eq!(generator.next(LineRead::Exhausted), Some(window(&["a"])));
    assert_eq!(generator.next(LineRead::Exhausted), None);
}

#[test]
fn first_filling_counts_failed_reads() {
    let mut generator = LinesGenerator::new(2);
    generator.prefill(LineRead::Failed);
    assert!(generator.prefilling());
    generator.prefill(LineRead::Failed);
    assert!(!generator.prefilling());
    assert_eq!(generator.next(LineRead::Line("a".to_string())), Some(window(&["a"])));
}

#[test]
fn no_window_without_filling_and_without_lines() {
    let mut generator = LinesGenerator::new(0);
    assert!(!generator.prefilling());
    assert_eq!(generator.next(LineRead::Exhausted), None);
}

#[test]
fn clone_is_the_same_read() {
    let read = LineRead::Line("def f():".to_string());
    assert_eq!(read.clone(), read);
    assert_eq!(LineRead::Failed.clone(), LineRead::Failed);
    assert_eq!(LineRead::Exhausted.clone(), LineRead::Exhausted);
}
