use rulkan::image_ops::Extent2D;
use rulkan::pipelines::workgroup_counts;

#[test]
fn workgroup_counts_for_1600_by_920() {
    let extent = Extent2D { width: 1600, height: 920 };
    let (x, y) = workgroup_counts(&extent);
    assert_eq!(x, 100);
    assert_eq!(y, 57);
}

#[test]
fn workgroup_counts_exact_multiple() {
    let extent = Extent2D { width: 1280, height: 720 };
    let (x, y) = workgroup_counts(&extent);
    assert_eq!(x, 80);
    assert_eq!(y, 45);
}

#[test]
fn workgroup_counts_truncates_below_one_tile() {
    let extent = Extent2D { width: 15, height: 31 };
    let (x, y) = workgroup_counts(&extent);
    assert_eq!(x, 0);
    assert_eq!(y, 1);
}
