use dns_failover::text::{joined, nothing, same_text, substitute};

#[test]
fn substitute_replaces_every_occurrence() {
    assert_eq!(substitute("a %IP% b %IP%", "%IP%", "1.2.3.4"), "a 1.2.3.4 b 1.2.3.4");
}

#[test]
fn substitute_leaves_text_without_the_pattern() {
    assert_eq!(substitute("nothing here", "%IP%", "1.2.3.4"), "nothing here");
    assert_eq!(substitute("", "%IP%", "1.2.3.4"), "");
    assert_eq!(substitute("%I", "%IP%", "1.2.3.4"), "%I");
}

#[test]
fn substitute_takes_occurrences_from_the_left() {
    assert_eq!(substitute("aaa", "aa", "b"), "ba");
    assert_eq!(substitute("%IP%IP%", "%IP%", "x"), "xIP%");
    assert_eq!(substitute("abababa", "aba", "-"), "-b-");
}

#[test]
fn substitute_does_not_look_into_what_it_put_in() {
    assert_eq!(substitute("ab", "a", "aa"), "aab");
    assert_eq!(substitute("%IP%", "%IP%", "%IP%%IP%"), "%IP%%IP%");
}

#[test]
fn substitute_with_an_empty_pattern_changes_nothing() {
    assert_eq!(substitute("abc", "", "x"), "abc");
}

#[test]
fn substitute_with_an_empty_value_removes() {
    assert_eq!(substitute("a-b-c", "-", ""), "abc");
}

#[test]
fn substitute_counts_characters_not_bytes() {
    assert_eq!(substitute("地址 %IP% 速度", "%IP%", "1.2.3.4"), "地址 1.2.3.4 速度");
    assert_eq!(substitute("下载速度", "载", "%"), "下%速度");
}

#[test]
fn substitute_agrees_with_the_standard_library() {
    let texts = ["", "a", "aaaa", "abcabc", "%IP% and %ERROR%", "xx%IP%xx%IP%", "%%IP%%"];
    let patterns = ["a", "aa", "abc", "%IP%", "%ERROR%", "%", "zz"];
    let values = ["", "b", "1.2.3.4", "%IP%"];
    for t in texts {
        for p in patterns {
            for v in values {
                assert_eq!(substitute(t, p, v), t.replace(p, v), "{:?} {:?} {:?}", t, p, v);
            }
        }
    }
}

#[test]
fn same_text_compares_characters() {
    assert!(same_text("A", "A"));
    assert!(!same_text("A", "a"));
    assert!(!same_text("A", "AA"));
    assert!(same_text("", ""));
}

#[test]
fn joined_puts_the_tail_behind_the_head() {
    assert_eq!(joined("Invalid response: ", "{}"), "Invalid response: {}");
    assert_eq!(joined("", ""), "");
}

#[test]
fn nothing_is_empty() {
    assert_eq!(nothing(), "");
}
