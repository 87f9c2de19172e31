use lu_packets::classify::{classify, contains_bytes, Category};

#[test]
fn classify_routes_categories() {
    assert_eq!(classify("0001_[53-01-00-00]_[00].bin"), Category::SystemHandshake);
    assert_eq!(classify("0002_[53-04-00-01]_[00].bin"), Category::WorldSystem);
    assert_eq!(classify("0003_[53-05-00-02]_[00].bin"), Category::WorldClient);
    assert_eq!(classify("0004_[53-02-00-31]_[00].bin"), Category::WorldClient);
    assert_eq!(classify("0005_[24]_[00-01] (1).bin"), Category::ObjectConstruction);
    assert_eq!(classify("0006_[27]_[00-01].bin"), Category::ObjectUpdate);
    assert_eq!(classify("0007_[20]_[00-01].bin"), Category::Ignored);
}

#[test]
fn deny_listed_sub_codes_are_ignored() {
    assert_eq!(classify("0010_[53-04-00-16]_[00].bin"), Category::Ignored);
    assert_eq!(classify("0011_[53-04-00-05]_[e6-00].bin"), Category::Ignored);
    assert_eq!(classify("0012_[53-04-00-05]_[1308].bin"), Category::Ignored);
    assert_eq!(classify("0013_[53-05-00-00]_[00].bin"), Category::Ignored);
    assert_eq!(classify("0014_[53-05-00-0c]_[76-00].bin"), Category::Ignored);
    assert_eq!(classify("0015_[53-05-00-0c]_[1648].bin"), Category::Ignored);
}

#[test]
fn allowed_replica_tags_override_denials() {
    assert_eq!(classify("0020_[53-05-00-00]_[27].bin"), Category::ObjectUpdate);
    assert_eq!(classify("0021_[24]_[00-01].bin"), Category::Ignored);
}

#[test]
fn tags_with_of_are_ignored() {
    assert_eq!(classify("0030_[53-01-00-00] part 1 of 2.bin"), Category::Ignored);
}

#[test]
fn contains_bytes_edges() {
    assert!(contains_bytes(b"abc", b""));
    assert!(contains_bytes(b"", b""));
    assert!(!contains_bytes(b"", b"a"));
    assert!(contains_bytes(b"abc", b"abc"));
    assert!(contains_bytes(b"xabc", b"bc"));
    assert!(!contains_bytes(b"ab", b"abc"));
    assert!(!contains_bytes(b"abd", b"abc"));
}
