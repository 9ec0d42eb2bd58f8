use shuttlings_cch24::manifest::{
    accepts_manifest, invalid_manifest, keyword_received, manifest_kind, mount_orders, validate,
    Keywords, ManifestKind, Order, Orders, Package,
};
use shuttlings_cch24::status::Status;

const PACKAGE: &str = "[package]\nname = \"not-a-gift-order\"\nauthors = [\"Not Santa\"]\nkeywords = [\"Christmas 2024\"]\n";

fn order(item: &str, quantity: i64) -> Order {
    Order { item: Some(item.to_string()), quantity: Some(quantity) }
}

fn words(list: &[&str]) -> Keywords {
    Keywords::List(list.iter().map(|w| Some(w.to_string())).collect())
}

fn package(keywords: Keywords, orders: Orders) -> Package {
    Package { toml: Some(PACKAGE.to_string()), keywords, orders }
}

#[test]
fn content_types_name_the_three_formats() {
    assert_eq!(manifest_kind("application/toml"), Some(ManifestKind::Toml));
    assert_eq!(manifest_kind("application/yaml"), Some(ManifestKind::Yaml));
    assert_eq!(manifest_kind("application/json"), Some(ManifestKind::Json));
    assert_eq!(manifest_kind("text/html"), None);
    assert_eq!(manifest_kind("application/toml; charset=utf-8"), None);
    assert_eq!(manifest_kind(""), None);
}

#[test]
fn package_manifests_are_told_from_other_text() {
    assert!(accepts_manifest(PACKAGE));
    assert!(accepts_manifest("[package]\nname = \"x\"\nversion = \"1.0.0\"\n"));
    assert!(!accepts_manifest("[package]\nname = false\n"));
    assert!(!accepts_manifest("[package]\nname = \"x\"\nkeywords = [1, 2]\n"));
    assert!(!accepts_manifest("this is = not toml ["));
    assert!(!accepts_manifest("[package"));
}

#[test]
fn the_magic_keyword_must_be_among_the_keywords() {
    assert_eq!(keyword_received(&words(&["Christmas 2024"])), Some(true));
    assert_eq!(keyword_received(&words(&["a", "Christmas 2024", "b"])), Some(true));
    assert_eq!(keyword_received(&words(&["christmas 2024"])), Some(false));
    assert_eq!(keyword_received(&words(&["Christmas 2024 "])), Some(false));
    assert_eq!(keyword_received(&words(&[])), Some(false));
    assert_eq!(keyword_received(&Keywords::Absent), Some(false));
}

#[test]
fn malformed_keywords_give_no_verdict() {
    assert_eq!(keyword_received(&Keywords::NotList), None);
    assert_eq!(keyword_received(&Keywords::List(vec![Some("a".to_string()), None])), None);
    assert_eq!(
        keyword_received(&Keywords::List(vec![None, Some("Christmas 2024".to_string())])),
        None
    );
    assert_eq!(
        keyword_received(&Keywords::List(vec![Some("Christmas 2024".to_string()), None])),
        Some(true)
    );
}

#[test]
fn orders_are_listed_line_by_line() {
    let orders = vec![order("Toy car", 2), order("Lego brick", 230)];
    assert_eq!(mount_orders(&orders), "Toy car: 2\nLego brick: 230");
    assert_eq!(mount_orders(&vec![order("Doll", -3)]), "Doll: -3");
    assert_eq!(mount_orders(&vec![]), "");
}

#[test]
fn orders_without_item_or_quantity_are_left_out() {
    let orders = vec![
        order("Toy car", 2),
        Order { item: None, quantity: Some(1) },
        Order { item: Some("Ghost".to_string()), quantity: None },
        Order { item: None, quantity: None },
        order("Lego brick", 230),
    ];
    assert_eq!(mount_orders(&orders), "Toy car: 2\nLego brick: 230");
    assert_eq!(mount_orders(&vec![Order { item: None, quantity: None }]), "");
}

#[test]
fn quotes_are_dropped_and_the_ends_trimmed() {
    assert_eq!(mount_orders(&vec![order("\"Toy\" car", 2)]), "Toy car: 2");
    assert_eq!(mount_orders(&vec![order("  padded", 1), order(" second ", 2)]), "padded: 1\n second : 2");
}

#[test]
fn a_package_with_orders_is_answered_with_their_listing() {
    let answer = validate(&package(
        words(&["Christmas 2024"]),
        Orders::List(vec![order("Toy car", 2), order("Lego brick", 230)]),
    ))
    .unwrap();
    assert_eq!(answer.status, Status::Success);
    assert_eq!(answer.body, "Toy car: 2\nLego brick: 230");
}

#[test]
fn a_package_without_orders_has_no_content() {
    let absent = validate(&package(words(&["Christmas 2024"]), Orders::Absent)).unwrap();
    assert_eq!(absent.status, Status::NoContent);
    assert_eq!(absent.body, "");
    let empty = validate(&package(words(&["Christmas 2024"]), Orders::List(vec![]))).unwrap();
    assert_eq!(empty.status, Status::NoContent);
    let unlisted = validate(&package(
        words(&["Christmas 2024"]),
        Orders::List(vec![Order { item: None, quantity: Some(1) }]),
    ))
    .unwrap();
    assert_eq!(unlisted.status, Status::NoContent);
    assert_eq!(unlisted.body, "");
}

#[test]
fn a_package_without_the_magic_keyword_is_turned_down() {
    let answer = validate(&package(words(&["Easter"]), Orders::List(vec![order("Egg", 1)]))).unwrap();
    assert_eq!(answer.status, Status::BadRequest);
    assert_eq!(answer.body, "Magic keyword not provided");
    let absent = validate(&package(Keywords::Absent, Orders::Absent)).unwrap();
    assert_eq!(absent.status, Status::BadRequest);
    assert_eq!(absent.body, "Magic keyword not provided");
}

#[test]
fn what_is_no_package_manifest_is_invalid() {
    let orders = Orders::List(vec![order("Toy car", 2)]);
    let unreadable = Package {
        toml: Some("[package]\nname = false\n".to_string()),
        keywords: words(&["Christmas 2024"]),
        orders,
    };
    let answer = validate(&unreadable).unwrap();
    assert_eq!(answer.status, Status::BadRequest);
    assert_eq!(answer.body, "Invalid manifest");
    let unwritten = Package { toml: None, keywords: Keywords::NotList, orders: Orders::NotList };
    let answer = validate(&unwritten).unwrap();
    assert_eq!(answer.status, Status::BadRequest);
    assert_eq!(answer.body, "Invalid manifest");
    let given = invalid_manifest();
    assert_eq!(given.status, Status::BadRequest);
    assert_eq!(given.body, "Invalid manifest");
}

#[test]
fn a_malformed_package_gets_no_answer() {
    assert!(validate(&package(Keywords::NotList, Orders::Absent)).is_none());
    assert!(validate(&package(words(&["Christmas 2024"]), Orders::NotList)).is_none());
    assert!(validate(&package(words(&["Easter"]), Orders::NotList)).is_some());
}
