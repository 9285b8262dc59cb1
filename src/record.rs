use vstd::prelude::*;

verus! {

/// The store's timestamp type: a date and time of day without a time zone.
#[verifier::external_type_specification]
#[verifier::external_body]
pub struct ExNaiveDateTime(chrono::NaiveDateTime);

/// Relies on `<chrono::NaiveDateTime as Default>::default`, the Unix epoch.
/// Nothing is stated of it: the value is only carried.
#[verifier::external_body]
fn unix_epoch() -> chrono::NaiveDateTime {
    chrono::NaiveDateTime::default()
}

/// One row of `parsed_asset_uris`: the processing state of one source asset.
#[derive(Debug, PartialEq, Eq)]
pub struct NFTMetadataCrawlerURIsQuery {
    pub asset_uri: String,
    pub raw_image_uri: Option<String>,
    pub raw_animation_uri: Option<String>,
    pub cdn_json_uri: Option<String>,
    pub cdn_image_uri: Option<String>,
    pub cdn_animation_uri: Option<String>,
    pub json_parser_retry_count: i32,
    pub image_optimizer_retry_count: i32,
    pub animation_optimizer_retry_count: i32,
    pub inserted_at: chrono::NaiveDateTime,
    pub do_not_parse: bool,
    pub last_transaction_version: i64,
}

/// True when `s` is present and reads `text`.
pub open spec fn holds_text(s: Option<String>, text: Seq<char>) -> bool {
    s is Some && s->0@ == text
}

fn copy_optional(s: &Option<String>) -> (r: Option<String>)
    ensures
        r == *s,
{
    match s {
        Some(t) => Some(t.clone()),
        None => None,
    }
}

impl NFTMetadataCrawlerURIsQuery {
    /// The zero value: empty asset URI, no optional field, counters and
    /// version at 0, `do_not_parse` unset.
    pub open spec fn is_zero_value(self) -> bool {
        &&& self.asset_uri@ == Seq::<char>::empty()
        &&& self.raw_image_uri is None
        &&& self.raw_animation_uri is None
        &&& self.cdn_json_uri is None
        &&& self.cdn_image_uri is None
        &&& self.cdn_animation_uri is None
        &&& self.json_parser_retry_count == 0
        &&& self.image_optimizer_retry_count == 0
        &&& self.animation_optimizer_retry_count == 0
        &&& !self.do_not_parse
        &&& self.last_transaction_version == 0
    }

    /// A field-for-field copy of the record.
    pub fn duplicate(&self) -> (r: Self)
        ensures
            r == *self,
    {
        NFTMetadataCrawlerURIsQuery {
            asset_uri: self.asset_uri.clone(),
            raw_image_uri: copy_optional(&self.raw_image_uri),
            raw_animation_uri: copy_optional(&self.raw_animation_uri),
            cdn_json_uri: copy_optional(&self.cdn_json_uri),
            cdn_image_uri: copy_optional(&self.cdn_image_uri),
            cdn_animation_uri: copy_optional(&self.cdn_animation_uri),
            json_parser_retry_count: self.json_parser_retry_count,
            image_optimizer_retry_count: self.image_optimizer_retry_count,
            animation_optimizer_retry_count: self.animation_optimizer_retry_count,
            inserted_at: self.inserted_at,
            do_not_parse: self.do_not_parse,
            last_transaction_version: self.last_transaction_version,
        }
    }
}

impl Default for NFTMetadataCrawlerURIsQuery {
    fn default() -> (r: Self)
        ensures
            r.is_zero_value(),
    {
        NFTMetadataCrawlerURIsQuery {
            asset_uri: String::new(),
            raw_image_uri: None,
            raw_animation_uri: None,
            cdn_json_uri: None,
            cdn_image_uri: None,
            cdn_animation_uri: None,
            json_parser_retry_count: 0,
            image_optimizer_retry_count: 0,
            animation_optimizer_retry_count: 0,
            inserted_at: unix_epoch(),
            do_not_parse: false,
            last_transaction_version: 0,
        }
    }
}

} // verus!
