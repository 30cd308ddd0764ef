use birchvault::text::{clone_opt, opt_text_eq, text_eq, text_less};

#[test]
fn text_order_is_bytewise() {
    assert!(text_less("a", "b"));
    assert!(!text_less("b", "a"));
    assert!(!text_less("a", "a"));
    assert!(text_less("", "a"));
    assert!(!text_less("a", ""));
    assert!(!text_less("", ""));
    assert!(text_less("ab", "abc"));
    assert!(text_less("Z", "a"));
    assert!(text_less("2024-01-01T00:00:00Z", "2024-01-01T00:00:01Z"));
    assert!(text_less("z", "é"));
    assert_eq!(text_less("é", "z"), "é" < "z");
    assert_eq!(text_less("\u{10000}", "\u{ffff}"), "\u{10000}" < "\u{ffff}");
}

#[test]
fn text_equality_and_copies() {
    assert!(text_eq("abc", "abc"));
    assert!(!text_eq("abc", "abd"));
    assert!(opt_text_eq(&Some("x".to_string()), "x"));
    assert!(!opt_text_eq(&Some("x".to_string()), "y"));
    assert!(!opt_text_eq(&None, ""));
    assert_eq!(clone_opt(&Some("x".to_string())), Some("x".to_string()));
    assert_eq!(clone_opt(&None), None);
}

struct Lcg(u64);

impl Lcg {
    fn next(&mut self) -> u64 {
        self.0 = self.0.wrapping_mul(6364136223846793005).wrapping_add(1442695040888963407);
        self.0 >> 33
    }

    fn text(&mut self, max: u64) -> String {
        let alphabet = ['a', 'b', 'A', '-', '_', ' ', 'é', '\u{1F511}', 'z', '0'];
        let n = self.next() % (max + 1);
        (0..n).map(|_| alphabet[(self.next() % alphabet.len() as u64) as usize]).collect()
    }
}

#[test]
fn text_helpers_agree_with_the_standard_library() {
    let mut g = Lcg(42);
    for _ in 0..3000 {
        let a = g.text(8);
        let b = g.text(3);
        assert_eq!(text_less(&a, &b), a < b, "{:?} {:?}", a, b);
        assert_eq!(text_eq(&a, &b), a == b);
        assert_eq!(birchvault::text::contains(&a, &b), a.contains(&b), "{:?} {:?}", a, b);
        assert_eq!(birchvault::text::starts_with(&a, &b), a.starts_with(&b), "{:?} {:?}", a, b);
        assert_eq!(birchvault::text::ends_with(&a, &b), a.ends_with(&b), "{:?} {:?}", a, b);
        assert_eq!(birchvault::text::replace_char(&a, '-', ' ', " "), a.replace('-', " "));
        let from = (g.next() % 10) as usize;
        let want = (from..=a.len()).find(|&i| a.as_bytes()[i..].starts_with(b.as_bytes()));
        assert_eq!(birchvault::text::find_from(a.as_bytes(), b.as_bytes(), from), want, "{:?} {:?} {}", a, b, from);
    }
}

#[test]
fn subtext_cuts_between_boundaries() {
    let s = "aé\u{1F511}z";
    assert_eq!(birchvault::text::subtext(s, 0, 1), "a");
    assert_eq!(birchvault::text::subtext(s, 1, 3), "é");
    assert_eq!(birchvault::text::subtext(s, 3, 7), "\u{1F511}");
    assert_eq!(birchvault::text::subtext(s, 7, 8), "z");
    assert_eq!(birchvault::text::subtext(s, 0, 8), s);
    assert_eq!(birchvault::text::subtext(s, 3, 3), "");
}
