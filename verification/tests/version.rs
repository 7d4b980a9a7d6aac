use bump_bin::error::AppError;
use bump_bin::version::Version;

fn parsed(text: &str) -> Version {
    Version::from_str(text).unwrap()
}

fn label(text: &str) -> Option<String> {
    Some(text.to_string())
}

#[test]
fn from_str_ok() {
    let result = Version::from_str("0.0.0");
    assert!(result.is_ok());
}

#[test]
fn from_str_ng() {
    let inputs = vec!["x.x.x", "vx.x.x", "x", "x.x"];
    for input in inputs {
        let result = Version::from_str(input);
        assert!(result.is_err());
        let msg = result.expect_err("").to_string();
        assert!(msg.contains("Can't find semver format"));
    }
}

#[test]
fn try_from_ok() {
    let result = Version::try_from((None, Some(String::from("0.0.0"))), false, &Ok(String::new()));

    let version = Version::from_str("0.0.0").unwrap();
    assert_eq!(result, Ok(version));
}

#[test]
fn try_from_ng() {
    let inputs = vec![
        (Some(String::from("test.md")), Some(String::from("x.x.x"))),
        (None, None),
    ];
    for (file, ver) in inputs {
        let result = Version::try_from((file, ver), false, &Ok(String::new()));
        assert!(result.is_err());
    }
}

#[test]
fn try_from_reads_each_source() {
    let v = Version::try_from((Some("version.txt".to_string()), None), false, &Ok("1.2.3\n".into()));
    assert_eq!(v.unwrap().to_string(), "1.2.3");
    let v = Version::try_from((None, Some("-".to_string())), false, &Ok("v4.5.6  ".into()));
    assert_eq!(v.unwrap().to_string(), "v4.5.6");
    let v = Version::try_from((None, None), true, &Ok("7.8.9\r\n".into()));
    assert_eq!(v.unwrap().to_string(), "7.8.9");
    let v = Version::try_from((None, Some("1.0.0".to_string())), true, &Err("unread".into()));
    assert_eq!(v.unwrap().to_string(), "1.0.0");
    let v = Version::try_from((None, None), true, &Err("broken pipe".into()));
    assert_eq!(v, Err(AppError::SourceUnreadable("broken pipe".to_string())));
    let v = Version::try_from((None, None), true, &Ok("  \n".into()));
    assert_eq!(v, Err(AppError::NotASemanticVersion(String::new())));
}

#[test]
fn from_str_gives_the_fields() {
    let v = parsed("release-12.0.345-alpha.0+20190722.x");
    assert_eq!(v.prefix(), "release-");
    assert_eq!(v.major(), 12);
    assert_eq!(v.minor(), 0);
    assert_eq!(v.patch(), 345);
    assert_eq!(v.pre_release(), &label("alpha.0"));
    assert_eq!(v.build_metadata(), &label("20190722.x"));

    let v = parsed("0.1.0");
    assert_eq!(v.prefix(), "");
    assert_eq!((v.major(), v.minor(), v.patch()), (0, 1, 0));
    assert_eq!(v.pre_release(), &None);
    assert_eq!(v.build_metadata(), &None);

    let v = parsed("1.2.3+only.build");
    assert_eq!(v.pre_release(), &None);
    assert_eq!(v.build_metadata(), &label("only.build"));

    let v = parsed("1.2.3--+-");
    assert_eq!(v.pre_release(), &label("-"));
    assert_eq!(v.build_metadata(), &label("-"));

    let v = parsed("18446744073709551615.18446744073709551615.18446744073709551615");
    assert_eq!((v.major(), v.minor(), v.patch()), (u64::MAX, u64::MAX, u64::MAX));
}

#[test]
fn from_str_takes_the_first_place_that_reads_as_a_version() {
    let v = parsed("1.2.3-4.5.6");
    assert_eq!(v.prefix(), "");
    assert_eq!((v.major(), v.minor(), v.patch()), (1, 2, 3));
    assert_eq!(v.pre_release(), &label("4.5.6"));

    let v = parsed("1.2.3-@4.5.6");
    assert_eq!(v.prefix(), "1.2.3-@");
    assert_eq!((v.major(), v.minor(), v.patch()), (4, 5, 6));

    let v = parsed("01.2.3");
    assert_eq!(v.prefix(), "0");
    assert_eq!((v.major(), v.minor(), v.patch()), (1, 2, 3));

    let v = parsed("v2-1.0.0");
    assert_eq!(v.prefix(), "v2-");
    assert_eq!((v.major(), v.minor(), v.patch()), (1, 0, 0));

    let v = parsed("1.2.3.4");
    assert_eq!(v.prefix(), "1.");
    assert_eq!((v.major(), v.minor(), v.patch()), (2, 3, 4));

    let v = parsed("18446744073709551616.0.0");
    assert_eq!(v.prefix(), "1");
    assert_eq!(v.major(), 8446744073709551616);

    let v = parsed("v\u{e9}\u{4e2d}-1.0.0");
    assert_eq!(v.prefix(), "v\u{e9}\u{4e2d}-");
    assert_eq!(v.to_string(), "v\u{e9}\u{4e2d}-1.0.0");
}

#[test]
fn from_str_refuses_what_holds_no_version() {
    for input in [
        "", "1", "1.2", "1.2.", "1.2.x", "0.0", "release", "0-0-0", "0.0.0@20190722", "1.2.3-",
        "1.2.3+", "1.2.3-a..b", "1.2.3-01", "1.2.3-alpha_1", "1.2.3 ", "1.2.03", "1.2.3-a+",
        "\u{661}.\u{662}.\u{663}",
    ] {
        assert_eq!(
            Version::from_str(input),
            Err(AppError::NotASemanticVersion(input.to_string())),
            "{:?}",
            input
        );
    }
}

#[test]
fn to_string_writes_every_part() {
    for text in [
        "0.0.0",
        "v1.0.0",
        "10.20.30",
        "1.0.0-alpha.0",
        "1.0.0+20190722",
        "release-1.0.0-rc.1+build.007",
        "9.99.109-0.x-y.z",
        "18446744073709551615.0.1",
    ] {
        assert_eq!(parsed(text).to_string(), text);
    }
}

#[test]
fn written_and_read_again_is_the_same_version() {
    for text in ["0.1.0", "v1.2.3-alpha.1+b.2", "release-10000.10000.10000", "a 0.0.0+0"] {
        let v = parsed(text);
        assert_eq!(Version::from_str(&v.to_string()), Ok(v.clone()));
        let b = v.bump_minor();
        assert_eq!(Version::from_str(&b.to_string()), Ok(b));
    }
}

#[test]
fn bump_patch_raises_patch_and_drops_labels() {
    let v = parsed("v1.2.3-alpha.0+b1");
    let b = v.bump_patch();
    assert_eq!((b.major(), b.minor(), b.patch()), (1, 2, 4));
    assert_eq!(b.pre_release(), &None);
    assert_eq!(b.build_metadata(), &None);
    assert_eq!(b.prefix(), "v");
    assert_eq!(b.to_string(), "v1.2.4");
    assert_eq!(v.to_string(), "v1.2.3-alpha.0+b1");
}

#[test]
fn bump_minor_raises_minor_and_clears_patch() {
    let b = parsed("v1.2.3-alpha.0+b1").bump_minor();
    assert_eq!((b.major(), b.minor(), b.patch()), (1, 3, 0));
    assert_eq!(b.pre_release(), &None);
    assert_eq!(b.build_metadata(), &None);
    assert_eq!(b.prefix(), "v");
    assert_eq!(parsed("10000.10000.10000").bump_minor().to_string(), "10000.10001.0");
}

#[test]
fn bump_major_raises_major_and_clears_the_rest() {
    let b = parsed("v1.2.3-alpha.0+b1").bump_major();
    assert_eq!((b.major(), b.minor(), b.patch()), (2, 0, 0));
    assert_eq!(b.pre_release(), &None);
    assert_eq!(b.build_metadata(), &None);
    assert_eq!(b.prefix(), "v");
    assert_eq!(b.to_string(), "v2.0.0");
}

#[test]
fn update_pre_release_touches_the_pre_release_only() {
    let v = parsed("release-1.2.3-alpha.0+20190722");
    let u = v.update_pre_release("beta.0").unwrap();
    assert_eq!(u.pre_release(), &label("beta.0"));
    assert_eq!(u.build_metadata(), &label("20190722"));
    assert_eq!((u.major(), u.minor(), u.patch()), (1, 2, 3));
    assert_eq!(u.prefix(), "release-");
    assert_eq!(u.to_string(), "release-1.2.3-beta.0+20190722");

    assert_eq!(parsed("1.0.0").update_pre_release("alpha.0").unwrap().to_string(), "1.0.0-alpha.0");
}

#[test]
fn update_build_touches_the_build_only() {
    let v = parsed("release-1.2.3-alpha.0+20190722");
    let u = v.update_build("20190723").unwrap();
    assert_eq!(u.pre_release(), &label("alpha.0"));
    assert_eq!(u.build_metadata(), &label("20190723"));
    assert_eq!((u.major(), u.minor(), u.patch()), (1, 2, 3));
    assert_eq!(u.prefix(), "release-");
    assert_eq!(u.to_string(), "release-1.2.3-alpha.0+20190723");
}

#[test]
fn labels_follow_the_grammar() {
    let v = parsed("1.0.0");
    for good in ["alpha", "alpha.0", "0", "x.7.z.92", "-", "a-b.c-d", "0a", "00a", "1.0.10"] {
        assert!(v.update_pre_release(good).is_ok(), "{:?}", good);
        assert!(v.update_build(good).is_ok(), "{:?}", good);
    }
    for bad in ["", ".", "a.", ".a", "a..b", "a_b", "a b", "a+b", "\u{e9}", "a.\u{661}"] {
        assert_eq!(v.update_pre_release(bad), Err(AppError::InvalidLabel(bad.to_string())));
        assert_eq!(v.update_build(bad), Err(AppError::InvalidLabel(bad.to_string())));
    }
    for zero in ["00", "01", "a.007", "0.00"] {
        assert_eq!(v.update_pre_release(zero), Err(AppError::InvalidLabel(zero.to_string())));
        assert_eq!(v.update_build(zero).unwrap().build_metadata(), &label(zero));
    }
}

#[test]
fn prefix_without_digits_is_kept() {
    for prefix in ["v", "release-", "Version: ", "\u{3b1}\u{3b2} ", "-.+"] {
        let text = format!("{}1.2.3-rc.1+b", prefix);
        let v = parsed(&text);
        assert_eq!(v.prefix(), prefix);
        assert_eq!(v.bump_patch().prefix(), prefix);
        assert_eq!(v.bump_minor().prefix(), prefix);
        assert_eq!(v.bump_major().prefix(), prefix);
        assert_eq!(v.update_pre_release("x").unwrap().prefix(), prefix);
        assert_eq!(v.update_build("x").unwrap().prefix(), prefix);
        assert_eq!(v.bump_major().to_string(), format!("{}2.0.0", prefix));
    }
}

#[test]
fn error_messages() {
    assert_eq!(
        AppError::NotASemanticVersion("x.x.x".to_string()).to_string(),
        "Can't find semver format. value: x.x.x"
    );
    assert_eq!(
        AppError::InvalidLabel("a_b".to_string()).to_string(),
        "Invalid pre-release or build label. value: a_b"
    );
    assert_eq!(
        AppError::ConflictingSource.to_string(),
        "Invalid argument, specify either ver args or file option"
    );
    assert_eq!(AppError::NoSource.to_string(), "Invalid argument");
    assert_eq!(AppError::SourceUnreadable("gone".to_string()).to_string(), "gone");
    assert_eq!(AppError::Overflow.to_string(), "Version number is too large to bump");
}
