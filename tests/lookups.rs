use nft_metadata_crawler_parser::lookup::Lookup;
use nft_metadata_crawler_parser::record::NFTMetadataCrawlerURIsQuery;

fn row(asset_uri: &str) -> NFTMetadataCrawlerURIsQuery {
    NFTMetadataCrawlerURIsQuery {
        asset_uri: asset_uri.to_string(),
        ..Default::default()
    }
}

fn image_row(asset_uri: &str, raw: &str, cdn: Option<&str>) -> NFTMetadataCrawlerURIsQuery {
    NFTMetadataCrawlerURIsQuery {
        raw_image_uri: Some(raw.to_string()),
        cdn_image_uri: cdn.map(|c| c.to_string()),
        ..row(asset_uri)
    }
}

fn animation_row(asset_uri: &str, raw: &str, cdn: Option<&str>) -> NFTMetadataCrawlerURIsQuery {
    NFTMetadataCrawlerURIsQuery {
        raw_animation_uri: Some(raw.to_string()),
        cdn_animation_uri: cdn.map(|c| c.to_string()),
        ..row(asset_uri)
    }
}

#[test]
fn default_is_zero_value() {
    let r = NFTMetadataCrawlerURIsQuery::default();
    assert_eq!(r.asset_uri, "");
    assert!(r.raw_image_uri.is_none());
    assert!(r.raw_animation_uri.is_none());
    assert!(r.cdn_json_uri.is_none());
    assert!(r.cdn_image_uri.is_none());
    assert!(r.cdn_animation_uri.is_none());
    assert_eq!(r.json_parser_retry_count, 0);
    assert_eq!(r.image_optimizer_retry_count, 0);
    assert_eq!(r.animation_optimizer_retry_count, 0);
    assert!(!r.do_not_parse);
    assert_eq!(r.last_transaction_version, 0);
    assert_eq!(r.inserted_at, chrono::NaiveDateTime::default());
}

#[test]
fn duplicate_keeps_every_field() {
    let mut a = image_row("ipfs://a", "ipfs://img", Some("https://cdn/a"));
    a.cdn_json_uri = Some("https://cdn/a.json".to_string());
    a.json_parser_retry_count = 2;
    a.do_not_parse = true;
    a.last_transaction_version = 77;
    assert_eq!(a.duplicate(), a);
}

#[test]
fn key_lookup_returns_the_row() {
    let mut b = image_row("ipfs://b", "ipfs://img", Some("https://cdn/b"));
    b.image_optimizer_retry_count = 3;
    b.last_transaction_version = 42;
    let rows = vec![row("ipfs://a"), b.duplicate(), row("ipfs://c")];
    assert_eq!(NFTMetadataCrawlerURIsQuery::get_by_asset_uri("ipfs://b", &rows), Some(b));
}

#[test]
fn key_lookup_of_missing_key_is_none() {
    let rows = vec![row("ipfs://a"), row("ipfs://b")];
    assert_eq!(NFTMetadataCrawlerURIsQuery::get_by_asset_uri("nonexistent", &rows), None);
    assert_eq!(NFTMetadataCrawlerURIsQuery::get_by_asset_uri("ipfs://a", &Vec::new()), None);
}

#[test]
fn image_reuse_skips_own_row() {
    let rows = vec![image_row("A", "U", Some("https://cdn/a"))];
    assert_eq!(NFTMetadataCrawlerURIsQuery::get_by_raw_image_uri("A", "U", &rows), None);
}

#[test]
fn image_reuse_finds_other_asset() {
    let a = image_row("A", "U", None);
    let b = image_row("B", "U", Some("https://cdn/x"));
    let rows = vec![a, b.duplicate()];
    assert_eq!(NFTMetadataCrawlerURIsQuery::get_by_raw_image_uri("A", "U", &rows), Some(b));
}

#[test]
fn image_reuse_without_match_is_none() {
    let rows = vec![image_row("A", "U", None), image_row("C", "V", Some("https://cdn/c"))];
    assert_eq!(NFTMetadataCrawlerURIsQuery::get_by_raw_image_uri("A", "U", &rows), None);
}

#[test]
fn image_reuse_skips_rows_without_cdn() {
    let rows = vec![image_row("A", "U", None), image_row("B", "U", None)];
    assert_eq!(NFTMetadataCrawlerURIsQuery::get_by_raw_image_uri("A", "U", &rows), None);
}

#[test]
fn image_reuse_takes_first_in_table_order() {
    let b = image_row("B", "U", Some("https://cdn/b"));
    let rows = vec![image_row("A", "U", Some("https://cdn/a")), b.duplicate(), image_row("C", "U", Some("https://cdn/c"))];
    assert_eq!(NFTMetadataCrawlerURIsQuery::get_by_raw_image_uri("A", "U", &rows), Some(b));
}

#[test]
fn image_reuse_ignores_animation_fields() {
    let rows = vec![animation_row("B", "U", Some("https://cdn/b"))];
    assert_eq!(NFTMetadataCrawlerURIsQuery::get_by_raw_image_uri("A", "U", &rows), None);
}

#[test]
fn animation_reuse_skips_own_row() {
    let rows = vec![animation_row("A", "U", Some("https://cdn/a"))];
    assert_eq!(NFTMetadataCrawlerURIsQuery::get_by_raw_animation_uri("A", "U", &rows), None);
}

#[test]
fn animation_reuse_finds_other_asset() {
    let b = animation_row("B", "U", Some("https://cdn/x"));
    let rows = vec![animation_row("A", "U", None), b.duplicate()];
    assert_eq!(NFTMetadataCrawlerURIsQuery::get_by_raw_animation_uri("A", "U", &rows), Some(b));
}

#[test]
fn animation_reuse_without_match_is_none() {
    let rows = vec![animation_row("A", "U", None), image_row("B", "U", Some("https://cdn/b"))];
    assert_eq!(NFTMetadataCrawlerURIsQuery::get_by_raw_animation_uri("A", "U", &rows), None);
}

#[test]
fn animation_reuse_skips_rows_without_cdn() {
    let rows = vec![animation_row("A", "U", None), animation_row("B", "U", None)];
    assert_eq!(NFTMetadataCrawlerURIsQuery::get_by_raw_animation_uri("A", "U", &rows), None);
}

#[test]
fn lookup_filters_and_positions() {
    let rows = vec![image_row("A", "U", None), image_row("B", "U", Some("https://cdn/b"))];
    let q = Lookup::ReusableImage { asset_uri: "A".to_string(), raw_image_uri: "U".to_string() };
    assert!(!q.matches(&rows[0]));
    assert!(q.matches(&rows[1]));
    assert_eq!(q.first_match(&rows), Some(1));
    assert_eq!(q.asset_uri(), "A");
    let by_key = Lookup::ByAssetUri { asset_uri: "A".to_string() };
    assert_eq!(by_key.first_match(&rows), Some(0));
    assert_eq!(by_key.read_from(&rows), Some(rows[0].duplicate()));
}
