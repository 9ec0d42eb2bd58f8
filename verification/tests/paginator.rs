use shuttlings_cch24::paginator::{
    first_unused_numbered, fresh_token, is_unused, Page, Paginator, MAX_DRAWS, PAGE_SIZE,
};
use shuttlings_cch24::quote::{copy_quotes, Quote};
use shuttlings_cch24::token::{numbered_token, random_token, TOKEN_LEN};

fn quote(n: u128) -> Quote {
    Quote {
        id: n,
        author: format!("author {}", n),
        quote: format!("quote {}", n),
        created_at: 1_700_000_000_000_000 + n as i64,
        version: 1,
    }
}

fn quotes(n: u128) -> Vec<Quote> {
    (1..=n).map(quote).collect()
}

fn ids(quotes: &[Quote]) -> Vec<u128> {
    quotes.iter().map(|q| q.id).collect()
}

fn page(token: &str) -> Page {
    Page { token: token.to_string(), quotes: vec![quote(1)] }
}

fn is_token(text: &str) -> bool {
    text.chars().count() == 16 && text.chars().all(|c| c.is_ascii_alphanumeric())
}

#[test]
fn constants_are_three_and_sixteen() {
    assert_eq!(PAGE_SIZE, 3);
    assert_eq!(TOKEN_LEN, 16);
    assert!(MAX_DRAWS >= 1);
}

#[test]
fn new_paginator_is_empty_and_not_traversed() {
    let paginator = Paginator::new();
    assert_eq!(paginator.page_count(), 0);
    assert!(!paginator.is_traversed());
}

#[test]
fn seven_quotes_make_three_pages() {
    let mut paginator = Paginator::new();
    paginator.set_pages(quotes(7));
    assert_eq!(paginator.page_count(), 3);

    let first = paginator.next_page(None).unwrap();
    assert_eq!(ids(&first.quotes), vec![1, 2, 3]);
    assert_eq!(first.page, 1);
    assert!(!paginator.is_traversed());

    let second = paginator.next_page(first.next_token).unwrap();
    assert_eq!(ids(&second.quotes), vec![4, 5, 6]);
    assert_eq!(second.page, 2);
    assert!(!paginator.is_traversed());

    let third = paginator.next_page(second.next_token).unwrap();
    assert_eq!(ids(&third.quotes), vec![7]);
    assert_eq!(third.page, 3);
    assert!(third.next_token.is_none());
    assert!(paginator.is_traversed());
}

#[test]
fn traversal_returns_the_listing_in_order() {
    for n in 0..=20u128 {
        let mut paginator = Paginator::new();
        paginator.set_pages(quotes(n));
        let pages = ((n + 2) / 3) as usize;
        assert_eq!(paginator.page_count(), pages);

        let mut seen: Vec<u128> = Vec::new();
        let mut requests = 0;
        let mut token: Option<String> = None;
        loop {
            let served = match paginator.next_page(token.clone()) {
                Some(list) => list,
                None => break,
            };
            requests += 1;
            assert_eq!(served.page, requests);
            assert!(!served.quotes.is_empty() && served.quotes.len() <= 3);
            seen.extend(ids(&served.quotes));
            match served.next_token {
                Some(next) => token = Some(next),
                None => break,
            }
        }
        assert_eq!(requests, pages);
        assert_eq!(seen, (1..=n).collect::<Vec<u128>>());
        assert_eq!(paginator.is_traversed(), n > 0);
    }
}

#[test]
fn pages_keep_every_field_of_a_quote() {
    let mut paginator = Paginator::new();
    paginator.set_pages(vec![Quote {
        id: 9,
        author: "Ada".to_string(),
        quote: "Engines".to_string(),
        created_at: -5,
        version: 7,
    }]);
    let served = paginator.next_page(None).unwrap();
    assert_eq!(served.quotes.len(), 1);
    let q = &served.quotes[0];
    assert_eq!(q.id, 9);
    assert_eq!(q.author, "Ada");
    assert_eq!(q.quote, "Engines");
    assert_eq!(q.created_at, -5);
    assert_eq!(q.version, 7);
}

#[test]
fn tokens_have_sixteen_alphanumeric_characters() {
    let mut paginator = Paginator::new();
    paginator.set_pages(quotes(60));
    let mut token: Option<String> = None;
    let mut tokens: Vec<String> = Vec::new();
    loop {
        let served = paginator.next_page(token.clone()).unwrap();
        match served.next_token {
            Some(next) => {
                assert!(is_token(&next), "{}", next);
                assert_eq!(next.len(), 16);
                tokens.push(next.clone());
                token = Some(next);
            }
            None => break,
        }
    }
    assert_eq!(tokens.len(), 19);
    let mut unique = tokens.clone();
    unique.sort();
    unique.dedup();
    assert_eq!(unique.len(), tokens.len());
}

#[test]
fn random_tokens_are_well_formed_and_differ() {
    let a = random_token();
    let b = random_token();
    assert!(is_token(&a));
    assert!(is_token(&b));
    assert_ne!(a, b);
}

#[test]
fn unknown_token_is_a_miss_and_changes_nothing() {
    let mut paginator = Paginator::new();
    paginator.set_pages(quotes(7));
    assert!(paginator.next_page(Some("!!!!!!!!!!!!!!!!".to_string())).is_none());
    assert!(paginator.next_page(Some(String::new())).is_none());
    assert!(!paginator.is_traversed());
    assert_eq!(paginator.page_count(), 3);
    let first = paginator.next_page(None).unwrap();
    assert_eq!(ids(&first.quotes), vec![1, 2, 3]);
}

#[test]
fn empty_paginator_serves_nothing() {
    let mut paginator = Paginator::new();
    assert!(paginator.next_page(None).is_none());
    assert!(!paginator.is_traversed());
    paginator.set_pages(Vec::new());
    assert_eq!(paginator.page_count(), 0);
    assert!(paginator.next_page(None).is_none());
    assert!(!paginator.is_traversed());
}

#[test]
fn three_quotes_fill_one_page() {
    let mut paginator = Paginator::new();
    paginator.set_pages(quotes(3));
    assert_eq!(paginator.page_count(), 1);
    let served = paginator.next_page(None).unwrap();
    assert_eq!(ids(&served.quotes), vec![1, 2, 3]);
    assert_eq!(served.page, 1);
    assert!(served.next_token.is_none());
    assert!(paginator.is_traversed());
}

#[test]
fn four_quotes_spill_onto_a_second_page() {
    let mut paginator = Paginator::new();
    paginator.set_pages(quotes(4));
    assert_eq!(paginator.page_count(), 2);
    let first = paginator.next_page(None).unwrap();
    assert_eq!(ids(&first.quotes), vec![1, 2, 3]);
    let second = paginator.next_page(first.next_token).unwrap();
    assert_eq!(ids(&second.quotes), vec![4]);
    assert_eq!(second.page, 2);
    assert!(second.next_token.is_none());
}

#[test]
fn a_token_can_be_used_again() {
    let mut paginator = Paginator::new();
    paginator.set_pages(quotes(5));
    let first = paginator.next_page(None).unwrap();
    let token = first.next_token.unwrap();
    let once = paginator.next_page(Some(token.clone())).unwrap();
    let twice = paginator.next_page(Some(token)).unwrap();
    assert_eq!(ids(&once.quotes), vec![4, 5]);
    assert_eq!(ids(&twice.quotes), vec![4, 5]);
    assert_eq!(twice.page, 2);
}

#[test]
fn set_pages_replaces_the_snapshot() {
    let mut paginator = Paginator::new();
    paginator.set_pages(quotes(2));
    let old = paginator.next_page(None).unwrap();
    assert!(old.next_token.is_none());
    assert!(paginator.is_traversed());

    paginator.set_pages((10..=14).map(quote).collect());
    assert!(!paginator.is_traversed());
    assert_eq!(paginator.page_count(), 2);
    let first = paginator.next_page(None).unwrap();
    assert_eq!(ids(&first.quotes), vec![10, 11, 12]);
}

#[test]
fn numbered_tokens_spell_hexadecimal() {
    assert_eq!(numbered_token(0), "0000000000000000");
    assert_eq!(numbered_token(1), "0000000000000001");
    assert_eq!(numbered_token(255), "00000000000000ff");
    assert_eq!(numbered_token(0x0123_4567_89ab_cdef), "0123456789abcdef");
    assert_eq!(numbered_token(u64::MAX), "ffffffffffffffff");
    assert!(is_token(&numbered_token(48_879)));
}

#[test]
fn is_unused_looks_at_every_page() {
    let taken = vec![page("aaaaaaaaaaaaaaaa"), page("bbbbbbbbbbbbbbbb")];
    assert!(!is_unused(&taken, &"aaaaaaaaaaaaaaaa".to_string()));
    assert!(!is_unused(&taken, &"bbbbbbbbbbbbbbbb".to_string()));
    assert!(is_unused(&taken, &"cccccccccccccccc".to_string()));
    assert!(is_unused(&Vec::new(), &"aaaaaaaaaaaaaaaa".to_string()));
}

#[test]
fn first_unused_numbered_skips_what_is_taken() {
    assert_eq!(first_unused_numbered(&Vec::new()), "0000000000000000");
    let taken = vec![page("0000000000000001"), page("0000000000000000"), page("0000000000000003")];
    assert_eq!(first_unused_numbered(&taken), "0000000000000002");
    let other = vec![page("aaaaaaaaaaaaaaaa")];
    assert_eq!(first_unused_numbered(&other), "0000000000000000");
}

#[test]
fn fresh_token_avoids_what_is_taken() {
    let mut taken: Vec<Page> = Vec::new();
    for _ in 0..50 {
        let token = fresh_token(&taken);
        assert!(is_token(&token));
        assert!(taken.iter().all(|p| p.token != token));
        taken.push(page(&token));
    }
}

#[test]
fn copy_quotes_takes_the_run_asked_for() {
    let all = quotes(5);
    assert_eq!(ids(&copy_quotes(&all, 1, 4)), vec![2, 3, 4]);
    assert!(copy_quotes(&all, 2, 2).is_empty());
    assert_eq!(ids(&copy_quotes(&all, 0, 5)), vec![1, 2, 3, 4, 5]);
}
