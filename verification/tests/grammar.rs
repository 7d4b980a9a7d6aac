use bump_bin::error::AppError;
use bump_bin::version::Version;

fn ident_char(c: char) -> bool {
    c.is_ascii_alphanumeric() || c == '-'
}

/// A build label, read off the text character by character.
fn build_label(s: &str) -> bool {
    let c: Vec<char> = s.chars().collect();
    !c.is_empty()
        && c.iter().all(|&x| ident_char(x) || x == '.')
        && c[0] != '.'
        && c[c.len() - 1] != '.'
        && (1..c.len()).all(|k| !(c[k] == '.' && c[k - 1] == '.'))
}

/// A pre-release label: a build label whose identifiers of digits alone have
/// no leading zero.
fn prerelease_label(s: &str) -> bool {
    build_label(s)
        && s.split('.').all(|id| {
            !(id.len() > 1 && id.chars().all(|x| x.is_ascii_digit()) && id.starts_with('0'))
        })
}

/// A number of the grammar: base ten, no leading zero, within 64 bits.
fn number(s: &str) -> Option<u64> {
    if s.is_empty() || !s.chars().all(|x| x.is_ascii_digit()) || (s.len() > 1 && s.starts_with('0')) {
        return None;
    }
    s.parse::<u64>().ok()
}

type Parts = (u64, u64, u64, Option<String>, Option<String>);

/// The parts of a semantic version, by cutting the text at its signs.
fn semver_parts(t: &str) -> Option<Parts> {
    let (rest, build) = match t.find('+') {
        Some(k) => (&t[..k], Some(t[k + 1..].to_string())),
        None => (t, None),
    };
    let (numbers, pre) = match rest.find('-') {
        Some(k) => (&rest[..k], Some(rest[k + 1..].to_string())),
        None => (rest, None),
    };
    let fields: Vec<&str> = numbers.split('.').collect();
    if fields.len() != 3 {
        return None;
    }
    if let Some(b) = &build {
        if !build_label(b) {
            return None;
        }
    }
    if let Some(p) = &pre {
        if !prerelease_label(p) {
            return None;
        }
    }
    Some((number(fields[0])?, number(fields[1])?, number(fields[2])?, pre, build))
}

/// The prefix and the parts that a text reads as: the first place from which
/// the rest is a semantic version decides.
fn reads_as(s: &str) -> Option<(String, Parts)> {
    for (k, _) in s.char_indices() {
        if let Some(parts) = semver_parts(&s[k..]) {
            return Some((s[..k].to_string(), parts));
        }
    }
    None
}

fn fields(v: &Version) -> (String, Parts) {
    (
        v.prefix().to_string(),
        (v.major(), v.minor(), v.patch(), v.pre_release().clone(), v.build_metadata().clone()),
    )
}

/// Every text over `alphabet` of at most `len` characters.
fn texts(alphabet: &[char], len: usize) -> Vec<String> {
    let mut all = vec![String::new()];
    let mut last = vec![String::new()];
    for _ in 0..len {
        let mut next = Vec::new();
        for t in &last {
            for &c in alphabet {
                let mut u = t.clone();
                u.push(c);
                next.push(u);
            }
        }
        all.extend(next.iter().cloned());
        last = next;
    }
    all
}

#[test]
fn every_short_label_is_judged_by_the_grammar() {
    let v = Version::from_str("1.0.0").unwrap();
    for t in texts(&['0', '1', 'a', 'Z', '-', '.', '+', '_'], 5) {
        assert_eq!(v.update_pre_release(&t).is_ok(), prerelease_label(&t), "{:?}", t);
        assert_eq!(v.update_build(&t).is_ok(), build_label(&t), "{:?}", t);
    }
}

#[test]
fn every_short_text_reads_as_the_grammar_says() {
    for t in texts(&['0', '1', '.', '-', '+', 'a'], 7) {
        match Version::from_str(&t) {
            Ok(v) => assert_eq!(Some(fields(&v)), reads_as(&t), "{:?}", t),
            Err(e) => {
                assert_eq!(e, AppError::NotASemanticVersion(t.clone()));
                assert_eq!(None, reads_as(&t), "{:?}", t);
            }
        }
    }
}

#[test]
fn every_version_text_with_labels_reads_as_the_grammar_says() {
    let labels = texts(&['0', 'a', '-', '.'], 3);
    for pre in &labels {
        for build in &labels {
            for prefix in ["", "v", "1.", "0.0.0-"] {
                let t = format!("{}1.20.0-{}+{}", prefix, pre, build);
                match Version::from_str(&t) {
                    Ok(v) => {
                        assert_eq!(Some(fields(&v)), reads_as(&t), "{:?}", t);
                        assert_eq!(v.to_string(), t);
                    }
                    Err(_) => assert_eq!(None, reads_as(&t), "{:?}", t),
                }
            }
        }
    }
}

#[test]
fn numbers_are_within_64_bits() {
    for (t, expect) in [
        ("18446744073709551615.0.0", Some(u64::MAX)),
        ("18446744073709551616.0.0", Some(8446744073709551616)),
        ("99999999999999999999.0.0", Some(9999999999999999999)),
        ("00.0.0", Some(0)),
        ("18446744073709551616", None),
    ] {
        assert_eq!(Version::from_str(t).ok().map(|v| v.major()), expect);
        assert_eq!(reads_as(t).map(|(_, p)| p.0), expect);
    }
}
