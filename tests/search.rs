use diet_backend::models::Food;
use diet_backend::search::{build_patterns, like_match, rank_foods, search_patterns, trim_chars, SEARCH_LIMIT};

fn food(id: i32, name: &str) -> Food {
    Food { id, name: name.to_string(), user_id: 0 }
}

fn chars(s: &str) -> Vec<char> {
    s.chars().collect()
}

fn text(v: &[char]) -> String {
    v.iter().collect()
}

#[test]
fn chick_ranks_prefix_match_first() {
    let foods = vec![food(1, "Grilled Chicken"), food(2, "BBQ Sauce with Chicken"), food(3, "Chicken Breast"), food(4, "Rice")];
    let r = rank_foods(&foods, "chick");
    let names: Vec<&str> = r.iter().map(|f| f.name.as_str()).collect();
    assert_eq!(names, vec!["Chicken Breast", "Grilled Chicken", "BBQ Sauce with Chicken"]);
}

#[test]
fn word_pattern_ranks_between() {
    let foods = vec![food(1, "Sauce, chicken breast"), food(2, "Chicken, roasted breast"), food(3, "Chicken Breast")];
    let r = rank_foods(&foods, "chicken breast");
    assert_eq!(r.iter().map(|f| f.id).collect::<Vec<_>>(), vec![3, 2, 1]);
}

#[test]
fn patterns_are_trimmed_and_lowercased() {
    let p = search_patterns("  Chick Bre ");
    assert_eq!(text(&p.exact_prefix), "chick bre%");
    assert_eq!(text(&p.word_boundary), "chick%bre%");
    assert_eq!(text(&p.anywhere), "%chick%bre%");
    let p = build_patterns(&chars("a b"));
    assert_eq!(text(&p.anywhere), "%a%b%");
}

#[test]
fn like_wildcards() {
    assert!(like_match(&chars("chicken"), &chars("chick%")));
    assert!(like_match(&chars("chicken"), &chars("%ick%")));
    assert!(like_match(&chars("chicken"), &chars("c_icken")));
    assert!(!like_match(&chars("chicken"), &chars("chick")));
    assert!(like_match(&chars(""), &chars("%")));
    assert!(!like_match(&chars(""), &chars("_")));
}

#[test]
fn search_is_capped() {
    let foods: Vec<Food> = (0..60).map(|i| food(i, &format!("Apple {}", i))).collect();
    let r = rank_foods(&foods, "apple");
    assert_eq!(r.len(), SEARCH_LIMIT);
    assert_eq!(r[0].id, 0);
    assert!(rank_foods(&foods, "pear").is_empty());
}

#[test]
fn like_escape_takes_next_char_literally() {
    assert!(like_match(&chars("50%"), &chars("50\\%")));
    assert!(!like_match(&chars("500"), &chars("50\\%")));
    assert!(like_match(&chars("a_b"), &chars("a\\_b")));
    assert!(!like_match(&chars("axb"), &chars("a\\_b")));
    assert!(like_match(&chars("a\\"), &chars("a\\")));
}

#[test]
fn trimming_white_space() {
    let once = trim_chars(&chars("\u{3000} \t pasta \n\u{a0}"));
    assert_eq!(text(&once), "pasta");
    assert_eq!(trim_chars(&once), once);
    assert!(trim_chars(&chars(" \t ")).is_empty());
    assert_eq!(text(&trim_chars(&chars("a b"))), "a b");
}
