use move_to_ts::naming::NamingRules;
use move_to_ts::rename;

#[test]
fn ordinary_name_is_kept() {
    assert_eq!(rename("Coin"), "Coin");
    assert_eq!(rename("coin_store"), "coin_store");
    assert_eq!(rename("x"), "x");
    assert_eq!(rename("temp$3"), "temp$3");
    assert_eq!(rename("a__b"), "a__b");
}

#[test]
fn empty_name_is_kept() {
    assert_eq!(rename(""), "");
}

#[test]
fn reserved_words_get_two_underscores() {
    assert_eq!(rename("new"), "new__");
    assert_eq!(rename("default"), "default__");
    assert_eq!(rename("for"), "for__");
}

#[test]
fn only_the_whole_word_is_reserved() {
    assert_eq!(rename("New"), "New");
    assert_eq!(rename("news"), "news");
    assert_eq!(rename("fo"), "fo");
    assert_eq!(rename("for_"), "for_");
    assert_eq!(rename(" for"), " for");
    assert_eq!(rename("new__"), "new__");
    assert_eq!(rename("function"), "function");
}

#[test]
fn temporaries_get_the_temp_prefix() {
    assert_eq!(rename("%#3"), "temp$3");
    assert_eq!(rename("%#12"), "temp$12");
    assert_eq!(rename("%#"), "temp$");
    assert_eq!(rename("%#new"), "temp$new");
}

#[test]
fn a_temporary_keeps_the_separators_of_its_suffix() {
    assert_eq!(rename("%#a#b"), "temp$a#b");
    assert_eq!(rename("%##"), "temp$#");
    assert_eq!(rename("%#%#1"), "temp$%#1");
}

#[test]
fn the_marker_counts_only_at_the_start() {
    assert_eq!(rename("a%#1"), "a%__1");
    assert_eq!(rename("%"), "%");
    assert_eq!(rename("%a#"), "%a__");
    assert_eq!(rename("#%"), "__%");
}

#[test]
fn shadow_separators_become_two_underscores() {
    assert_eq!(rename("x#0"), "x__0");
    assert_eq!(rename("a#b#c"), "a__b__c");
    assert_eq!(rename("#"), "__");
    assert_eq!(rename("##"), "____");
    assert_eq!(rename("x#"), "x__");
    assert_eq!(rename("#x"), "__x");
    assert_eq!(rename("new#1"), "new__1");
}

#[test]
fn characters_beyond_ascii_pass_through() {
    assert_eq!(rename("größe"), "größe");
    assert_eq!(rename("名#前"), "名__前");
    assert_eq!(rename("%#ß"), "temp$ß");
}

#[test]
fn renaming_is_the_same_every_time() {
    for name in ["Coin", "new", "%#3", "a#b#c", ""] {
        assert_eq!(rename(name), rename(name));
    }
}

#[test]
fn anything_that_can_be_written_can_be_renamed() {
    assert_eq!(rename(&"default"), "default__");
    assert_eq!(rename(&"x#1".to_string()), "x__1");
    assert_eq!(rename(&17u64), "17");
    assert_eq!(rename(&'#'), "__");
}

#[test]
fn typescript_rules_are_what_rename_uses() {
    let rules = NamingRules::typescript();
    assert_eq!(rules.reserved, vec!["new".to_string(), "default".to_string(), "for".to_string()]);
    assert_eq!(rules.temporary_marker, "%#");
    assert_eq!(rules.shadow_separator, '#');
    for name in ["Coin", "new", "default", "for", "%#3", "x#0", "a#b#c", "%#a#b", ""] {
        assert_eq!(rules.sanitize(name), rename(name));
    }
}

#[test]
fn reserved_words_are_found_letter_for_letter() {
    let rules = NamingRules::typescript();
    assert!(rules.is_reserved("new"));
    assert!(rules.is_reserved("default"));
    assert!(rules.is_reserved("for"));
    assert!(!rules.is_reserved("New"));
    assert!(!rules.is_reserved(""));
    assert!(!rules.is_reserved("for "));
    let none = NamingRules::new(Vec::new(), "%#".to_string(), '#');
    assert!(!none.is_reserved("new"));
    assert_eq!(none.sanitize("new"), "new");
}

#[test]
fn custom_rules_are_honoured() {
    let rules = NamingRules::new(
        vec!["class".to_string(), "let".to_string()],
        "@@".to_string(),
        '!',
    );
    assert_eq!(rules.sanitize("class"), "class__");
    assert_eq!(rules.sanitize("let"), "let__");
    assert_eq!(rules.sanitize("new"), "new");
    assert_eq!(rules.sanitize("@@7!x"), "temp$7!x");
    assert_eq!(rules.sanitize("@7"), "@7");
    assert_eq!(rules.sanitize("a!b"), "a__b");
    assert_eq!(rules.sanitize("a#b"), "a#b");
    assert_eq!(rules.sanitize("%#3"), "%#3");
}

#[test]
fn a_reserved_word_wins_over_the_other_rules() {
    let rules = NamingRules::new(
        vec!["%#x".to_string(), "a#b".to_string()],
        "%#".to_string(),
        '#',
    );
    assert_eq!(rules.sanitize("%#x"), "%#x__");
    assert_eq!(rules.sanitize("a#b"), "a#b__");
    assert_eq!(rules.sanitize("%#y"), "temp$y");
    assert_eq!(rules.sanitize("a#c"), "a__c");
}

#[test]
fn an_empty_marker_makes_every_name_a_temporary() {
    let rules = NamingRules::new(vec!["new".to_string()], String::new(), '#');
    assert_eq!(rules.sanitize("new"), "new__");
    assert_eq!(rules.sanitize("x#1"), "temp$x#1");
    assert_eq!(rules.sanitize(""), "temp$");
}

#[test]
fn an_underscore_may_be_the_separator() {
    let rules = NamingRules::new(Vec::new(), "%#".to_string(), '_');
    assert_eq!(rules.sanitize("a_b"), "a__b");
    assert_eq!(rules.sanitize("__"), "____");
}

#[test]
fn names_without_underscores_keep_apart() {
    let names = ["a", "b", "ab", "a#b", "a##b", "#ab", "ab#", "a#b#", "#", "##", "", "x#0", "x#1"];
    for (i, left) in names.iter().enumerate() {
        for right in names.iter().skip(i + 1) {
            assert_ne!(rename(left), rename(right), "{:?} and {:?}", left, right);
        }
    }
}

#[test]
fn temporaries_keep_apart() {
    let names = ["%#", "%#0", "%#1", "%#10", "%#a#b", "%#a__b", "%##"];
    for (i, left) in names.iter().enumerate() {
        for right in names.iter().skip(i + 1) {
            assert_ne!(rename(left), rename(right), "{:?} and {:?}", left, right);
        }
    }
}

#[test]
fn an_underscore_can_make_two_names_meet() {
    assert_eq!(rename("a#b"), rename("a__b"));
    assert_eq!(rename("new"), rename("new__"));
    assert_eq!(rename("%#3"), rename("temp$3"));
}
