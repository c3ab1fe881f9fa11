use nested_sequences::{allocate_memory, render, report, report_line};

#[test]
fn render_empty() {
    assert_eq!(render(&Vec::new()), "[]");
}

#[test]
fn render_single() {
    assert_eq!(render(&vec![0]), "[0]");
    assert_eq!(render(&vec![7]), "[7]");
    assert_eq!(render(&vec![10]), "[10]");
}

#[test]
fn render_several() {
    assert_eq!(render(&vec![0, 1, 2]), "[0, 1, 2]");
    assert_eq!(render(&vec![9, 10, 99, 100, 101]), "[9, 10, 99, 100, 101]");
    assert_eq!(render(&vec![1000, 20, 3]), "[1000, 20, 3]");
}

#[test]
fn render_negative_and_extreme() {
    assert_eq!(render(&vec![-1]), "[-1]");
    assert_eq!(render(&vec![-10, 10]), "[-10, 10]");
    assert_eq!(
        render(&vec![i32::MIN, i32::MAX]),
        "[-2147483648, 2147483647]"
    );
}

#[test]
fn render_is_the_debug_form() {
    let samples: Vec<Vec<i32>> = vec![
        vec![],
        vec![0],
        vec![-5, 5],
        vec![i32::MIN, -1, 0, 1, i32::MAX],
        vec![1, 12, 123, 1234, 12345, 123456, 1234567, 12345678, 123456789, 1234567890],
        vec![9, 99, 999, 9999, 100, 1000, 10000, 1_000_000_000],
        allocate_memory(25),
    ];
    for seq in samples.iter() {
        assert_eq!(render(seq), format!("{:?}", seq));
    }
}

#[test]
fn render_leaves_the_sequence_alone() {
    let seq = vec![3, 1, 2];
    let text = render(&seq);
    assert_eq!(seq, vec![3, 1, 2]);
    assert_eq!(text, "[3, 1, 2]");
}

#[test]
fn report_line_of_small_sequences() {
    assert_eq!(
        report_line(&vec![1], &vec![], &vec![2, -3]),
        "Allocated memory: a=[1], b=[], c=[2, -3]"
    );
}

#[test]
fn report_line_keeps_the_order_of_its_arguments() {
    let a = vec![1, 2];
    let b = vec![3];
    let c = vec![4, 5, 6];
    assert_eq!(
        report_line(&a, &b, &c),
        format!("Allocated memory: a={:?}, b={:?}, c={:?}", a, b, c)
    );
    assert_ne!(report_line(&a, &b, &c), report_line(&c, &b, &a));
}

#[test]
fn program_output_line() {
    let expected = "Allocated memory: \
        a=[0, 1, 2, 3, 4, 5, 6, 7, 8, 9, 0, 2, 4, 6, 8, 10, 12, 14, 16, 18, \
        0, 3, 6, 9, 12, 15, 18, 21, 24, 27], \
        b=[0, 1, 2, 3, 4, 5, 6, 7, 8, 9, 10, 11, 12, 13, 14, 15, 16, 17, 18, 19, \
        0, 2, 4, 6, 8, 10, 12, 14, 16, 18, 20, 22, 24, 26, 28, 30, 32, 34, 36, 38, \
        0, 3, 6, 9, 12, 15, 18, 21, 24, 27, 30, 33, 36, 39, 42, 45, 48, 51, 54, 57], \
        c=[0, 1, 2, 3, 4, 5, 6, 7, 8, 9, 10, 11, 12, 13, 14, 15, 16, 17, 18, 19, \
        20, 21, 22, 23, 24, 25, 26, 27, 28, 29, \
        0, 2, 4, 6, 8, 10, 12, 14, 16, 18, 20, 22, 24, 26, 28, 30, 32, 34, 36, 38, \
        40, 42, 44, 46, 48, 50, 52, 54, 56, 58, \
        0, 3, 6, 9, 12, 15, 18, 21, 24, 27, 30, 33, 36, 39, 42, 45, 48, 51, 54, 57, \
        60, 63, 66, 69, 72, 75, 78, 81, 84, 87]";
    let line = report();
    assert_eq!(line, expected);
    assert!(!line.contains('\n'));
}

#[test]
fn program_output_matches_the_built_sequences() {
    let a = allocate_memory(10);
    let b = allocate_memory(20);
    let c = allocate_memory(30);
    assert_eq!(a.len(), 30);
    assert_eq!(b.len(), 60);
    assert_eq!(c.len(), 90);
    assert_eq!(a[..4], [0, 1, 2, 3]);
    assert_eq!(a[10..14], [0, 2, 4, 6]);
    assert_eq!(
        report(),
        format!("Allocated memory: a={:?}, b={:?}, c={:?}", a, b, c)
    );
    assert_eq!(report(), report_line(&a, &b, &c));
}
