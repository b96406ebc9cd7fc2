use deet::diff::{DiffLine, diff, lcs};
use deet::grid::Grid;

fn as_lines(s: &str) -> Vec<String> {
    s.chars().map(|c| c.to_string()).collect()
}

#[test]
fn test_lcs() {
    let mut expected = Grid::new(5, 4);
    expected.set(1, 1, 1).unwrap();
    expected.set(1, 2, 1).unwrap();
    expected.set(1, 3, 1).unwrap();
    expected.set(2, 1, 1).unwrap();
    expected.set(2, 2, 1).unwrap();
    expected.set(2, 3, 2).unwrap();
    expected.set(3, 1, 1).unwrap();
    expected.set(3, 2, 1).unwrap();
    expected.set(3, 3, 2).unwrap();
    expected.set(4, 1, 1).unwrap();
    expected.set(4, 2, 2).unwrap();
    expected.set(4, 3, 2).unwrap();

    println!("Expected:");
    let result = lcs(&as_lines("abcd"), &as_lines("adb"));
    println!("Got:");
    assert_eq!(result.size(), expected.size());
    for row in 0..expected.size().0 {
        for col in 0..expected.size().1 {
            assert_eq!(result.get(row, col), expected.get(row, col));
        }
    }
}

#[test]
fn test_lcs_empty_inputs() {
    let empty: Vec<String> = Vec::new();
    let table = lcs(&empty, &as_lines("ab"));
    assert_eq!(table.size(), (1, 3));
    assert_eq!(table.get(0, 2), Some(0));
}

#[test]
fn test_diff_reports_shared_and_one_sided_lines() {
    let l1 = as_lines("ab");
    let l2 = as_lines("b");
    let table = lcs(&l1, &l2);
    let d = diff(&table, &l1, &l2, l1.len(), l2.len());
    assert_eq!(
        d,
        vec![DiffLine::OnlyFirst(String::from("a")), DiffLine::Same(String::from("b"))]
    );
}

#[test]
fn test_diff_of_equal_files_is_all_same() {
    let l1 = as_lines("xy");
    let table = lcs(&l1, &l1);
    let d = diff(&table, &l1, &l1, 2, 2);
    assert_eq!(
        d,
        vec![DiffLine::Same(String::from("x")), DiffLine::Same(String::from("y"))]
    );
}
