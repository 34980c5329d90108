use std::path::Path;

use robius::bus;
use robius::bus::BusError;
use robius::fnv::{mix, mix_text, OFFSET_BASIS};
use robius::path::{spell, FilePath, PathStyle};
use robius::percent::{percent_decode, percent_encode, split, split_once};
use robius::sorted::{comes_before, insert};
use robius::table::Table;
use robius::text;
use robius::time::{TimeSpan, Timestamp};

#[test]
fn escapes_come_back() {
    for text in ["", "plain", "a b&c=d", "100%", "ö/☃", "%41"] {
        assert_eq!(percent_decode(&percent_encode(text)), text);
    }
    assert_eq!(percent_encode("a b"), "a%20b");
    assert_eq!(percent_decode("%41%4"), "A%4");
    assert_eq!(percent_decode("%ff"), "\u{fffd}");
    assert_eq!(percent_decode("%+4%-4%4+"), "\u{4}%-4%4+");
    assert_eq!(split("a&&b", '&'), vec!["a", "", "b"]);
    assert_eq!(split_once("a=b=c", '='), Some(("a".to_string(), "b=c".to_string())));
    assert_eq!(split_once("a", '='), None);
}

#[test]
fn hashes_are_those_of_fnv() {
    assert_eq!(mix_text(OFFSET_BASIS, ""), OFFSET_BASIS);
    assert_eq!(mix_text(OFFSET_BASIS, "a"), 0xaf63_dc4c_8601_ec8c);
    assert_eq!(mix_text(OFFSET_BASIS, "foobar"), 0x85944171f73967e8);
    assert_eq!(mix(mix(OFFSET_BASIS, b'f'), b'o'), mix_text(OFFSET_BASIS, "fo"));
}

#[test]
fn tables_hold_the_last_value() {
    let mut table: Table<String, u32> = Table::new();
    table.insert("a".to_string(), 1);
    table.insert("b".to_string(), 2);
    table.insert("a".to_string(), 3);
    assert_eq!(table.get(&"a".to_string()), Some(&3));
    assert!(table.contains(&"b".to_string()));
    assert_eq!(table.keys().len(), 2);
    table.remove(&"a".to_string());
    assert_eq!(table.get(&"a".to_string()), None);
    table.clear();
    assert!(table.keys().is_empty());
}

#[test]
fn sorted_lists_have_no_doubles() {
    let mut list: Vec<String> = Vec::new();
    for item in ["b", "a", "c", "b", "ab"] {
        insert(&mut list, item);
    }
    assert_eq!(list, vec!["a", "ab", "b", "c"]);
    assert!(comes_before("a", "ab"));
    assert!(!comes_before("b", "ab"));
}

#[test]
fn texts_are_handled_by_character() {
    assert!(text::same("ö", "ö"));
    assert!(text::is_blank(" \t\u{3000}"));
    assert!(!text::is_blank(" x "));
    assert_eq!(text::trim("  ö x "), "ö x");
    assert!(text::starts_with("öx", "ö"));
    assert!(text::ends_with("öx", "x"));
    assert_eq!(text::strip_prefix("app.ok", "app.").as_deref(), Some("ok"));
    assert_eq!(text::strip_prefix("ok", "app."), None);
    assert_eq!(text::strip_suffix("a.desktop", ".desktop").as_deref(), Some("a"));
    assert_eq!(text::replace_char("1.2.3", '.', '_'), "1_2_3");
    assert_eq!(text::trim_leading("::1", ':'), "1");
    assert_eq!(text::trim_trailing("a//", '/'), "a");
    assert_eq!(text::decimal(0), "0");
    assert_eq!(text::decimal(u64::MAX), "18446744073709551615");
    assert_eq!(text::decimal_wide(u128::MAX), "340282366920938463463374607431768211455");
    assert_eq!(text::hex(0xab, 4), "00ab");
}

#[test]
fn instants_are_counted_in_nanoseconds() {
    assert_eq!(Timestamp { secs: -1, nanos: 5 }.instant_nanos(), -999_999_995);
    assert_eq!(TimeSpan::from_secs(2).length_nanos(), 2_000_000_000);
    let early = Timestamp { secs: 1, nanos: 1 };
    let late = Timestamp { secs: 1, nanos: 2 };
    assert!(early.at_or_before(&late));
    assert!(!late.at_or_before(&early));
}

#[test]
fn bus_errors_are_described() {
    assert!(matches!(bus::outcome(Ok(1)), Ok(1)));
    assert!(matches!(
        bus::outcome::<()>(Err(zbus::Error::InterfaceNotFound)),
        Err(BusError::InterfaceNotFound)
    ));
    assert!(matches!(
        bus::outcome::<()>(Err(zbus::Error::Unsupported)),
        Err(BusError::Unsupported)
    ));
    assert!(matches!(
        bus::outcome::<()>(Err(zbus::Error::InvalidReply)),
        Err(BusError::Other)
    ));
    let standard = zbus::Error::FDO(Box::new(zbus::fdo::Error::NoReply("late".into())));
    let Err(BusError::Standard(name)) = bus::outcome::<()>(Err(standard)) else {
        panic!("expected a standard error");
    };
    assert_eq!(name, "org.freedesktop.DBus.Error.NoReply");
}

#[test]
fn white_space_is_that_of_unicode() {
    for c in '\0'..=char::MAX {
        assert_eq!(text::is_white_space(c), c.is_whitespace());
    }
}

fn sample_paths() -> Vec<String> {
    let parts = ["a", ".", "..", "b.c", ".d", "e.", "..f", "ö.g.h", ""];
    let mut paths = vec!["".to_string(), "/".to_string(), "//".to_string()];
    for first in parts {
        for second in parts {
            paths.push(format!("{first}/{second}"));
            paths.push(format!("/{first}/{second}"));
            paths.push(format!("/{first}//{second}/"));
            paths.push(format!("{first}{second}"));
        }
    }
    paths
}

#[test]
fn paths_are_read_as_the_standard_library_reads_them() {
    let paths = sample_paths();
    for text in &paths {
        let ours = FilePath::from_text(text);
        let theirs = Path::new(text);
        let name = theirs.file_name().and_then(|name| name.to_str());
        assert_eq!(ours.file_name(PathStyle::Unix).as_deref(), name, "{text}");
        let stem = theirs.file_stem().and_then(|stem| stem.to_str());
        assert_eq!(ours.file_stem(PathStyle::Unix).as_deref(), stem, "{text}");
        assert_eq!(ours.lossy_stem(PathStyle::Unix).as_deref(), stem, "{text}");
        let extension = theirs.extension().and_then(|extension| extension.to_str());
        assert_eq!(ours.extension(PathStyle::Unix).as_deref(), extension, "{text}");
        for other in ["x", "/x", "", "x/y"] {
            let joined = theirs.join(other);
            assert_eq!(ours.join(other).to_text().as_deref(), joined.to_str(), "{text} {other}");
        }
        for other in &paths {
            let same = theirs == Path::new(other);
            let ours_too = FilePath::from_text(other);
            assert_eq!(ours.same_path(&ours_too, PathStyle::Unix), same, "{text} {other}");
            if theirs.is_absolute() && Path::new(other).is_absolute() {
                let rest = theirs.strip_prefix(other).ok().and_then(|rest| rest.to_str());
                let below = ours.segments_below(&FilePath::from_text(other));
                let below = below.and_then(|segments| spell(&segments).to_text());
                assert_eq!(below.as_deref(), rest, "{text} {other}");
            }
        }
    }
}

#[test]
fn windows_paths_are_read_as_windows_spells_them() {
    let name = |text: &str| FilePath::from_text(text).file_name(PathStyle::Windows);
    let found = |text: &str| Some(text.to_string());
    for text in [
        r"C:\a\b.txt",
        "C:/a/b.txt",
        r"C:\a/b.txt\",
        r"C:b.txt",
        r"a\b.txt\.",
        r"\b.txt",
        r"\\server\share\b.txt",
        "//server/share/b.txt",
        r"\\?\C:\a\b.txt",
        r"\\?\UNC\server\share\b.txt",
        r"\\?\pictures\b.txt",
        r"\\.\device\b.txt",
    ] {
        assert_eq!(name(text), found("b.txt"), "{text}");
    }
    for text in [
        "",
        r"C:",
        r"C:\",
        r"C:\a\..",
        r"C:.",
        ".",
        r"\\server\share",
        r"\\server\share\",
        r"\\?\C:",
        r"\\?\UNC\server\share",
        r"\\?\pictures",
        r"\\?\C:\a\.",
        r"\\.\COM42",
    ] {
        assert_eq!(name(text), None, "{text}");
    }
    // After a verbatim prefix a `/` is part of a name, and a server without a share is none.
    assert_eq!(name(r"\\?\C:\a/b.txt"), found("a/b.txt"));
    assert_eq!(name(r"\\server"), found("server"));
    // The other systems take all of that as a name.
    assert_eq!(
        FilePath::from_text(r"C:\a\b.txt").file_name(PathStyle::Unix),
        found(r"C:\a\b.txt")
    );
    let path = FilePath::from_text(r"C:\a.d\b.tar.gz");
    assert_eq!(path.file_stem(PathStyle::Windows), found("b.tar"));
    assert_eq!(path.extension(PathStyle::Windows), found("gz"));
    let same = |left: &str, right: &str| {
        FilePath::from_text(left).same_path(&FilePath::from_text(right), PathStyle::Windows)
    };
    assert!(same(r"c:\a\.\b", "C:/a//b/"));
    assert!(same(r"\\server\share", "//server/share/"));
    assert!(same(r"\\?\c:\a", r"\\?\C:\a"));
    assert!(!same(r"C:a", r"C:\a"));
    assert!(same(r"C:.\a", r"C:a"));
    assert!(!same(r".\a", "a"));
    assert!(!same(r"C:\a", r"D:\a"));
    assert!(!same(r"C:\a", r"C:\A"));
    assert!(!same(r"C:\a", r"\\?\C:\a"));
    assert!(!same(r"\\?\C:\.\a", r"\\?\C:\a"));
    assert!(!same(r"\\server\share\a", r"\\server\other\a"));
}

#[test]
fn texts_are_handled_as_the_standard_library_handles_them() {
    let texts = ["", " a ", "\u{2003}ö\t", "::1.2", "a//", "app.x.desktop", "a?b?c", "a/b/c"];
    for text in texts {
        assert_eq!(text::trim(text), text.trim());
        assert_eq!(text::trim_leading(text, ':'), text.trim_start_matches(':'));
        assert_eq!(text::trim_trailing(text, '/'), text.trim_end_matches('/'));
        assert_eq!(text::replace_char(text, '.', '_'), text.replace('.', "_"));
        assert_eq!(text::cut_before(text, '?'), text.split('?').next().unwrap());
        assert_eq!(text::cut_after(text, '/'), text.rsplit('/').next().unwrap());
        assert_eq!(text::strip_prefix(text, "app.").as_deref(), text.strip_prefix("app."));
        assert_eq!(
            text::strip_suffix(text, ".desktop").as_deref(),
            text.strip_suffix(".desktop")
        );
        let parts: Vec<&str> = text.split('/').collect();
        assert_eq!(split(text, '/'), parts);
        assert_eq!(
            split_once(text, '?'),
            text.split_once('?').map(|(left, right)| (left.to_string(), right.to_string()))
        );
        for other in texts {
            assert_eq!(comes_before(text, other), text < other);
        }
    }
    for number in [0, 7, 10, 255, 4096, u64::MAX] {
        assert_eq!(text::decimal(number), number.to_string());
        assert_eq!(text::hex(number, 16), format!("{number:016x}"));
    }
}
