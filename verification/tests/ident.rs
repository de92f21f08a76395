use ident_match::ident::{Ident, IdentLike};
use ident_match::pattern::Regex;

fn table(text: &str) -> toml::Value {
    text.parse::<toml::Value>().unwrap()
}

#[test]
fn a_name_matches_itself_and_nothing_else() {
    let id = Ident::Name("alpha".to_string());
    assert!(id.is_match("alpha"));
    assert!(!id.is_match("alph"));
    assert!(!id.is_match("alphabet"));
    assert!(!id.is_match("Alpha"));
    assert!(!id.is_match(""));
}

#[test]
fn a_name_is_no_pattern() {
    let id = Ident::Name("a.*".to_string());
    assert!(id.is_match("a.*"));
    assert!(!id.is_match("abc"));
}

#[test]
fn the_empty_name_matches_the_empty_candidate_only() {
    let id = Ident::Name(String::new());
    assert!(id.is_match(""));
    assert!(!id.is_match(" "));
}

#[test]
fn a_pattern_has_to_cover_the_whole_candidate() {
    let id = Ident::Pattern(Regex::new("foo").unwrap());
    assert!(id.is_match("foo"));
    assert!(!id.is_match("foobar"));
    assert!(!id.is_match("xfoo"));
}

#[test]
fn a_pattern_of_alternatives_does_not_answer_to_a_longer_candidate() {
    let id = Ident::parse(&table("pattern = \"a|b\""), "entry", "rule").unwrap();
    assert!(id.is_match("a"));
    assert!(id.is_match("b"));
    assert!(!id.is_match("ax"));
    assert!(!id.is_match("xb"));
}

#[test]
fn the_capability_agrees_with_the_method() {
    let ids = [Ident::Name("alpha".to_string()), Ident::Pattern(Regex::new("alp.*").unwrap())];
    for id in &ids {
        for candidate in ["alpha", "alpine", "beta", ""] {
            assert_eq!(IdentLike::is_match(id, candidate), id.is_match(candidate));
        }
    }
}

#[test]
fn names_are_equal_by_text() {
    assert!(Ident::Name("a".to_string()) == Ident::Name("a".to_string()));
    assert!(Ident::Name("a".to_string()) != Ident::Name("b".to_string()));
}

#[test]
fn patterns_are_equal_by_source_text() {
    let a = Ident::Pattern(Regex::new("a|b").unwrap());
    let b = Ident::Pattern(Regex::new("a|b").unwrap());
    let c = Ident::Pattern(Regex::new("b|a").unwrap());
    assert!(a == b);
    assert!(a != c);
}

#[test]
fn a_name_never_equals_a_pattern() {
    let name = Ident::Name("a".to_string());
    let pattern = Ident::Pattern(Regex::new("a").unwrap());
    assert!(name != pattern);
    assert!(pattern != name);
}

#[test]
fn a_clone_is_equal() {
    let name = Ident::Name("a".to_string());
    let pattern = Ident::Pattern(Regex::new("a+").unwrap());
    assert!(name.clone() == name);
    assert!(pattern.clone() == pattern);
    assert!(pattern.clone().is_match("aaa"));
}

#[test]
fn decode_takes_the_pattern_first() {
    let id = Ident::decode(Some("a.*"), Some("a")).unwrap().unwrap();
    assert!(id == Ident::Pattern(Regex::new("a.*").unwrap()));
}

#[test]
fn decode_takes_the_name_without_a_pattern() {
    let id = Ident::decode(None, Some("a")).unwrap().unwrap();
    assert!(id == Ident::Name("a".to_string()));
}

#[test]
fn decode_yields_nothing_from_nothing() {
    assert!(Ident::decode(None, None).unwrap().is_none());
}

#[test]
fn decode_reports_a_bad_pattern_whatever_the_name() {
    let err = Ident::decode(Some("("), Some("a")).unwrap_err();
    assert_eq!(err.source, "(");
    let err = Ident::decode(Some("("), None).unwrap_err();
    assert_eq!(err.source, "(");
}

#[test]
fn try_parse_reports_a_bad_pattern() {
    let err = Ident::try_parse(&table("pattern = \"(\"")).unwrap_err();
    assert_eq!(err.source, "(");
    assert_eq!(err.message, regex::Regex::new("(").unwrap_err().to_string());
    let err = Ident::try_parse(&table("name = \"a\"\npattern = \"[\"")).unwrap_err();
    assert_eq!(err.source, "[");
}

#[test]
fn try_parse_agrees_with_parse_where_it_succeeds() {
    let texts = [
        "pattern = \"alp.*\"",
        "name = \"alpha\"",
        "name = \"a\"\npattern = \"a.*\"",
        "pattern = 3\nname = \"a\"",
        "pattern = 3",
        "other = \"a\"",
        "",
    ];
    for text in texts {
        let value = table(text);
        let tried = Ident::try_parse(&value).unwrap();
        let parsed = Ident::parse(&value, "entry", "rule");
        assert!(tried == parsed);
    }
}

#[test]
fn try_parse_yields_nothing_for_what_is_no_table() {
    assert!(Ident::try_parse(&toml::Value::String("name".to_string())).unwrap().is_none());
    assert!(Ident::try_parse(&toml::Value::Boolean(true)).unwrap().is_none());
}

#[test]
fn parse_reads_a_pattern() {
    let id = Ident::parse(&table("pattern = \"alp.*\""), "entry", "rule").unwrap();
    assert!(id == Ident::Pattern(Regex::new("alp.*").unwrap()));
    assert!(id.is_match("alpha"));
    assert!(!id.is_match("beta"));
}

#[test]
fn parse_reads_a_name() {
    let id = Ident::parse(&table("name = \"alpha\""), "entry", "rule").unwrap();
    assert!(id == Ident::Name("alpha".to_string()));
}

#[test]
fn parse_prefers_the_pattern() {
    let id = Ident::parse(&table("name = \"a\"\npattern = \"a.*\""), "entry", "rule").unwrap();
    assert!(id == Ident::Pattern(Regex::new("a.*").unwrap()));
}

#[test]
fn parse_yields_nothing_for_a_bad_pattern() {
    assert!(Ident::parse(&table("pattern = \"(\""), "entry", "rule").is_none());
    assert!(Ident::parse(&table("name = \"a\"\npattern = \"(\""), "entry", "rule").is_none());
}

#[test]
fn parse_yields_nothing_without_either_key() {
    assert!(Ident::parse(&table("other = \"a\""), "entry", "rule").is_none());
    assert!(Ident::parse(&table(""), "entry", "rule").is_none());
}

#[test]
fn parse_passes_over_a_pattern_that_is_no_string() {
    let id = Ident::parse(&table("pattern = 3\nname = \"a\""), "entry", "rule").unwrap();
    assert!(id == Ident::Name("a".to_string()));
    assert!(Ident::parse(&table("pattern = 3"), "entry", "rule").is_none());
}

#[test]
fn parse_passes_over_a_name_that_is_no_string() {
    assert!(Ident::parse(&table("name = true"), "entry", "rule").is_none());
    assert!(Ident::parse(&table("name = [\"a\"]"), "entry", "rule").is_none());
}

#[test]
fn parse_yields_nothing_for_what_is_no_table() {
    assert!(Ident::parse(&toml::Value::String("name".to_string()), "entry", "rule").is_none());
    assert!(Ident::parse(&toml::Value::Integer(1), "entry", "rule").is_none());
    let array = toml::Value::Array(vec![table("name = \"a\"")]);
    assert!(Ident::parse(&array, "entry", "rule").is_none());
}

#[test]
fn parse_does_not_depend_on_the_context() {
    let value = table("name = \"a\"");
    let one = Ident::parse(&value, "first", "rule").unwrap();
    let two = Ident::parse(&value, "", "").unwrap();
    assert!(one == two);
}
