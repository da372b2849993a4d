use accuchek::config::{CharClass, Config};

const DEFAULT_TEXT: &str = "# Accu-Chek Configuration File\n\
# \n\
# Device whitelist: vendor_0xXXXX_device_0xYYYY 1\n\
# Use 1 to enable, 0 to disable\n\
\n\
# Roche Accu-Chek devices\n\
vendor_0x173a_device_0x21d5 1  # Accu-Chek model 929\n\
vendor_0x173a_device_0x21d7 1  # Accu-Chek model (product id 0x21d7)\n\
vendor_0x173a_device_0x21d8 1  # Relion Platinum model 982\n\
\n\
# Optional: Custom database path (uncomment to override default)\n\
# database_path C:\\path\\to\\custom\\accuchek.db\n";

#[test]
fn parse_line_splits_at_the_first_white_space() {
    assert_eq!(Config::parse_line("key value"), Some(("key", "value")));
    assert_eq!(Config::parse_line("key    value  "), Some(("key", "value")));
    assert_eq!(Config::parse_line("key\tvalue with words"), Some(("key", "value with words")));
    assert_eq!(Config::parse_line("a b # c"), Some(("a", "b # c")));
    assert_eq!(Config::parse_line("k\u{a0}v"), Some(("k", "v")));
}

#[test]
fn parse_line_refuses_what_is_no_entry() {
    assert_eq!(Config::parse_line(""), None);
    assert_eq!(Config::parse_line("key"), None);
    assert_eq!(Config::parse_line("key "), None);
    assert_eq!(Config::parse_line("key   \t"), None);
    assert_eq!(Config::parse_line(" value"), None);
    assert_eq!(Config::parse_line("   "), None);
}

#[test]
fn default_configuration_is_empty() {
    let config = Config::default();
    assert!(config.devices.is_empty());
    assert!(config.database_path.is_none());
    assert!(!config.is_device_valid(0x173a, 0x21d5));
}

#[test]
fn parse_reads_the_whitelist() {
    let config = Config::parse(DEFAULT_TEXT);
    assert_eq!(config.devices.len(), 3);
    assert!(config.is_device_valid(0x173a, 0x21d5));
    assert!(config.is_device_valid(0x173a, 0x21d7));
    assert!(config.is_device_valid(0x173a, 0x21d8));
    assert!(!config.is_device_valid(0x173a, 0x21d6));
    assert!(!config.is_device_valid(0x173b, 0x21d5));
    assert!(config.database_path.is_none());
}

#[test]
fn parse_reads_the_database_path() {
    let config = Config::parse("database_path /var/lib/accuchek.db  # where the data goes\n");
    assert_eq!(config.database_path.as_deref(), Some("/var/lib/accuchek.db"));
    assert!(config.devices.is_empty());
    let config = Config::parse("database_path C:\\data\\My Files\\a.db");
    assert_eq!(config.database_path.as_deref(), Some("C:\\data\\My Files\\a.db"));
    let config = Config::parse("database_path #nothing");
    assert_eq!(config.database_path.as_deref(), Some(""));
}

#[test]
fn parse_enables_only_the_value_one() {
    let config = Config::parse(
        "vendor_0x0001_device_0x0001 1\n\
         vendor_0x0001_device_0x0002 0\n\
         vendor_0x0001_device_0x0003 yes\n\
         vendor_0x0001_device_0x0004 11\n\
         vendor_0x0001_device_0x0005 1#on\n\
         vendor_0x0001_device_0x0006 1 1\n",
    );
    assert_eq!(config.devices.len(), 6);
    assert!(config.is_device_valid(1, 1));
    assert!(!config.is_device_valid(1, 2));
    assert!(!config.is_device_valid(1, 3));
    assert!(!config.is_device_valid(1, 4));
    assert!(config.is_device_valid(1, 5));
    assert!(!config.is_device_valid(1, 6));
}

#[test]
fn a_later_entry_replaces_an_earlier_one() {
    let config = Config::parse("vendor_0x0001_device_0x0001 1\nvendor_0x0001_device_0x0001 0\n");
    assert_eq!(config.devices.len(), 1);
    assert!(!config.is_device_valid(1, 1));
    let config = Config::parse("database_path a\ndatabase_path b");
    assert_eq!(config.database_path.as_deref(), Some("b"));
}

#[test]
fn parse_skips_comments_and_lines_without_a_value() {
    let config = Config::parse(
        "\n   \n# vendor_0x0001_device_0x0001 1\n   # indented comment\n\
         vendor_0x0001_device_0x0002\n\r\n  vendor_0x0001_device_0x0003 1  \r\n",
    );
    assert_eq!(config.devices.len(), 1);
    assert!(config.is_device_valid(1, 3));
    assert!(!config.is_device_valid(1, 1));
    assert!(!config.is_device_valid(1, 2));
    assert!(Config::parse("").devices.is_empty());
}

#[test]
fn apply_line_takes_in_one_line() {
    let mut config = Config::default();
    config.apply_line("  vendor_0xabcd_device_0x0012   1   # a meter");
    assert!(config.is_device_valid(0xabcd, 0x0012));
    config.apply_line("# vendor_0xabcd_device_0x0012 0");
    assert!(config.is_device_valid(0xabcd, 0x0012));
    config.apply_line("vendor_0xabcd_device_0x0012 0");
    assert!(!config.is_device_valid(0xabcd, 0x0012));
    config.apply_line("database_path x.db");
    assert_eq!(config.database_path.as_deref(), Some("x.db"));
}

#[test]
fn character_classes() {
    assert!(CharClass::Space.has(' '));
    assert!(CharClass::Space.has('\t'));
    assert!(!CharClass::Space.has('x'));
    assert!(CharClass::NotSpace.has('x'));
    assert!(!CharClass::NotSpace.has('\n'));
    assert!(CharClass::NotComment.has('x'));
    assert!(!CharClass::NotComment.has('#'));
    assert!(CharClass::NotLineFeed.has('\r'));
    assert!(!CharClass::NotLineFeed.has('\n'));
}

#[test]
fn white_space_is_the_unicode_property() {
    let listed = |code: u32| {
        (0x0009..=0x000D).contains(&code)
            || code == 0x0020
            || code == 0x0085
            || code == 0x00A0
            || code == 0x1680
            || (0x2000..=0x200A).contains(&code)
            || code == 0x2028
            || code == 0x2029
            || code == 0x202F
            || code == 0x205F
            || code == 0x3000
    };
    let mut count = 0;
    for code in 0u32..=0x10FFFF {
        if let Some(c) = char::from_u32(code) {
            assert_eq!(CharClass::Space.has(c), listed(code), "code point {:#x}", code);
            assert_eq!(CharClass::NotSpace.has(c), !listed(code), "code point {:#x}", code);
            if listed(code) {
                count += 1;
            }
        }
    }
    assert_eq!(count, 25);
}
