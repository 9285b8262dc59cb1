use crate::record::{holds_text, NFTMetadataCrawlerURIsQuery};
use vstd::prelude::*;

verus! {

/// One of the three reads this crate makes of `parsed_asset_uris`.
#[derive(Debug, Clone, PartialEq, Eq)]
pub enum Lookup {
    /// The row whose primary key is `asset_uri`.
    ByAssetUri { asset_uri: String },
    /// Another asset's row with the same raw image URI and a produced CDN image.
    ReusableImage { asset_uri: String, raw_image_uri: String },
    /// Another asset's row with the same raw animation URI and a produced CDN animation.
    ReusableAnimation { asset_uri: String, raw_animation_uri: String },
}

/// `rec` belongs to another asset than `asset_uri`, was parsed from the image
/// `raw`, and its CDN image exists.
pub open spec fn reusable_image(rec: NFTMetadataCrawlerURIsQuery, asset_uri: Seq<char>, raw: Seq<char>) -> bool {
    &&& rec.asset_uri@ != asset_uri
    &&& holds_text(rec.raw_image_uri, raw)
    &&& rec.cdn_image_uri is Some
}

/// The animation counterpart of `reusable_image`.
pub open spec fn reusable_animation(rec: NFTMetadataCrawlerURIsQuery, asset_uri: Seq<char>, raw: Seq<char>) -> bool {
    &&& rec.asset_uri@ != asset_uri
    &&& holds_text(rec.raw_animation_uri, raw)
    &&& rec.cdn_animation_uri is Some
}

/// The first row of `rows`, in table order, that `keep` holds of.
pub open spec fn first_where(
    rows: Seq<NFTMetadataCrawlerURIsQuery>,
    keep: spec_fn(NFTMetadataCrawlerURIsQuery) -> bool,
) -> Option<NFTMetadataCrawlerURIsQuery>
    decreases rows.len(),
{
    if rows.len() == 0 {
        None
    } else if keep(rows[0]) {
        Some(rows[0])
    } else {
        first_where(rows.drop_first(), keep)
    }
}

/// The filter of the primary-key lookup.
pub open spec fn has_key(key: Seq<char>) -> spec_fn(NFTMetadataCrawlerURIsQuery) -> bool {
    |rec: NFTMetadataCrawlerURIsQuery| rec.asset_uri@ == key
}

/// The filter of the image dedup lookup.
pub open spec fn image_reuse(asset_uri: Seq<char>, raw: Seq<char>) -> spec_fn(NFTMetadataCrawlerURIsQuery) -> bool {
    |rec: NFTMetadataCrawlerURIsQuery| reusable_image(rec, asset_uri, raw)
}

/// The filter of the animation dedup lookup.
pub open spec fn animation_reuse(asset_uri: Seq<char>, raw: Seq<char>) -> spec_fn(NFTMetadataCrawlerURIsQuery) -> bool {
    |rec: NFTMetadataCrawlerURIsQuery| reusable_animation(rec, asset_uri, raw)
}

/// No two rows share a primary key.
pub open spec fn keys_unique(rows: Seq<NFTMetadataCrawlerURIsQuery>) -> bool {
    forall|i: int, j: int|
        0 <= i < rows.len() && 0 <= j < rows.len() && i != j ==> rows[i].asset_uri@ != rows[j].asset_uri@
}

fn optional_text_is(s: &Option<String>, text: &String) -> (r: bool)
    ensures
        r == holds_text(*s, text@),
{
    match s {
        Some(t) => t.eq(text),
        None => false,
    }
}

impl Lookup {
    /// Whether the filter of this lookup keeps `rec`.
    pub open spec fn filter(self) -> spec_fn(NFTMetadataCrawlerURIsQuery) -> bool {
        match self {
            Lookup::ByAssetUri { asset_uri } => has_key(asset_uri@),
            Lookup::ReusableImage { asset_uri, raw_image_uri } => image_reuse(asset_uri@, raw_image_uri@),
            Lookup::ReusableAnimation { asset_uri, raw_animation_uri } =>
                animation_reuse(asset_uri@, raw_animation_uri@),
        }
    }

    /// The asset URI the lookup was made for.
    pub fn asset_uri(&self) -> (r: &str)
        ensures
            r@ == match *self {
                Lookup::ByAssetUri { asset_uri } => asset_uri@,
                Lookup::ReusableImage { asset_uri, .. } => asset_uri@,
                Lookup::ReusableAnimation { asset_uri, .. } => asset_uri@,
            },
    {
        match self {
            Lookup::ByAssetUri { asset_uri } => asset_uri.as_str(),
            Lookup::ReusableImage { asset_uri, .. } => asset_uri.as_str(),
            Lookup::ReusableAnimation { asset_uri, .. } => asset_uri.as_str(),
        }
    }

    /// Applies the filter of this lookup to `rec`.
    pub fn matches(&self, rec: &NFTMetadataCrawlerURIsQuery) -> (r: bool)
        ensures
            r == (self.filter())(*rec),
    {
        match self {
            Lookup::ByAssetUri { asset_uri } => rec.asset_uri.eq(asset_uri),
            Lookup::ReusableImage { asset_uri, raw_image_uri } => {
                !rec.asset_uri.eq(asset_uri)
                    && optional_text_is(&rec.raw_image_uri, raw_image_uri)
                    && rec.cdn_image_uri.is_some()
            },
            Lookup::ReusableAnimation { asset_uri, raw_animation_uri } => {
                !rec.asset_uri.eq(asset_uri)
                    && optional_text_is(&rec.raw_animation_uri, raw_animation_uri)
                    && rec.cdn_animation_uri.is_some()
            },
        }
    }

    /// The position of the first row of `rows` that this lookup selects.
    pub fn first_match(&self, rows: &Vec<NFTMetadataCrawlerURIsQuery>) -> (r: Option<usize>)
        ensures
            match r {
                Some(i) => i < rows.len() && first_where(rows@, self.filter()) == Some(rows@[i as int]),
                None => first_where(rows@, self.filter()) is None,
            },
            r is None <==> forall|j: int| 0 <= j < rows.len() ==> !(self.filter())(#[trigger] rows@[j]),
    {
        let n = rows.len();
        let mut i: usize = 0;
        assert(rows@.subrange(0, n as int) =~= rows@);
        while i < n
            invariant
                n == rows.len(),
                i <= n,
                first_where(rows@, self.filter()) == first_where(rows@.subrange(i as int, n as int), self.filter()),
                forall|j: int| 0 <= j < i ==> !(self.filter())(#[trigger] rows@[j]),
            decreases n - i,
        {
            let rest = Ghost(rows@.subrange(i as int, n as int));
            assert(rest@[0] == rows@[i as int]);
            if self.matches(&rows[i]) {
                return Some(i);
            }
            assert(rest@.drop_first() =~= rows@.subrange(i + 1, n as int));
            i = i + 1;
        }
        assert(rows@.subrange(n as int, n as int) =~= Seq::<NFTMetadataCrawlerURIsQuery>::empty());
        None
    }

    /// What this lookup reads from a table holding `rows`: a copy of the
    /// first row it selects, or `None`.
    pub fn read_from(&self, rows: &Vec<NFTMetadataCrawlerURIsQuery>) -> (r: Option<NFTMetadataCrawlerURIsQuery>)
        ensures
            r == first_where(rows@, self.filter()),
    {
        match self.first_match(rows) {
            Some(i) => Some(rows[i].duplicate()),
            None => None,
        }
    }
}

impl NFTMetadataCrawlerURIsQuery {
    /// The row of `rows` whose primary key is `asset_uri`.
    pub fn get_by_asset_uri(asset_uri: &str, rows: &Vec<Self>) -> (r: Option<Self>)
        ensures
            r == first_where(rows@, has_key(asset_uri@)),
    {
        let q = Lookup::ByAssetUri { asset_uri: asset_uri.to_string() };
        q.read_from(rows)
    }

    /// The first row of `rows`, other than `asset_uri`'s own, that was parsed
    /// from the image `raw_image_uri` and whose CDN image exists.
    pub fn get_by_raw_image_uri(asset_uri: &str, raw_image_uri: &str, rows: &Vec<Self>) -> (r: Option<Self>)
        ensures
            r == first_where(rows@, image_reuse(asset_uri@, raw_image_uri@)),
    {
        let q = Lookup::ReusableImage { asset_uri: asset_uri.to_string(), raw_image_uri: raw_image_uri.to_string() };
        q.read_from(rows)
    }

    /// The first row of `rows`, other than `asset_uri`'s own, that was parsed
    /// from the animation `raw_animation_uri` and whose CDN animation exists.
    pub fn get_by_raw_animation_uri(asset_uri: &str, raw_animation_uri: &str, rows: &Vec<Self>) -> (r: Option<Self>)
        ensures
            r == first_where(rows@, animation_reuse(asset_uri@, raw_animation_uri@)),
    {
        let q = Lookup::ReusableAnimation {
            asset_uri: asset_uri.to_string(),
            raw_animation_uri: raw_animation_uri.to_string(),
        };
        q.read_from(rows)
    }
}

/// `first_where` picks a row of `rows` that `keep` holds of, and finds
/// none exactly when `keep` holds of no row.
pub proof fn lemma_first_where(
    rows: Seq<NFTMetadataCrawlerURIsQuery>,
    keep: spec_fn(NFTMetadataCrawlerURIsQuery) -> bool,
)
    ensures
        match first_where(rows, keep) {
            Some(r) => keep(r) && exists|i: int| 0 <= i < rows.len() && rows[i] == r,
            None => forall|i: int| 0 <= i < rows.len() ==> !keep(#[trigger] rows[i]),
        },
    decreases rows.len(),
{
    if rows.len() > 0 && !keep(rows[0]) {
        lemma_first_where(rows.drop_first(), keep);
        match first_where(rows.drop_first(), keep) {
            Some(r) => {
                let i = choose|i: int| 0 <= i < rows.drop_first().len() && rows.drop_first()[i] == r;
                assert(rows[i + 1] == r);
            },
            None => {
                assert forall|i: int| 0 <= i < rows.len() implies !keep(#[trigger] rows[i]) by {
                    if i > 0 {
                        assert(rows[i] == rows.drop_first()[i - 1]);
                    }
                }
            },
        }
    } else if rows.len() > 0 {
        assert(rows[0] == rows[0]);
    }
}

/// Self-exclusion: the image dedup lookup made for `asset_uri` never returns
/// a row of `asset_uri` itself, whatever the table holds.
pub proof fn lemma_image_reuse_excludes_self(rows: Seq<NFTMetadataCrawlerURIsQuery>, asset_uri: Seq<char>, raw: Seq<char>)
    ensures
        first_where(rows, image_reuse(asset_uri, raw)) matches Some(r) ==> r.asset_uri@ != asset_uri,
{
    lemma_first_where(rows, image_reuse(asset_uri, raw));
}

/// A row without a CDN image is never returned by the image dedup lookup;
/// what it returns is a row of the table with the asked raw image URI.
pub proof fn lemma_image_reuse_needs_cdn(rows: Seq<NFTMetadataCrawlerURIsQuery>, asset_uri: Seq<char>, raw: Seq<char>)
    ensures
        first_where(rows, image_reuse(asset_uri, raw)) matches Some(r) ==> {
            &&& r.cdn_image_uri is Some
            &&& holds_text(r.raw_image_uri, raw)
            &&& rows.contains(r)
        },
{
    lemma_first_where(rows, image_reuse(asset_uri, raw));
}

/// The image dedup lookup finds nothing exactly when no other asset's row
/// has the raw image URI and a CDN image.
pub proof fn lemma_image_reuse_none(rows: Seq<NFTMetadataCrawlerURIsQuery>, asset_uri: Seq<char>, raw: Seq<char>)
    ensures
        first_where(rows, image_reuse(asset_uri, raw)) is None
            <==> forall|i: int| 0 <= i < rows.len() ==> !reusable_image(#[trigger] rows[i], asset_uri, raw),
{
    lemma_first_where(rows, image_reuse(asset_uri, raw));
    if first_where(rows, image_reuse(asset_uri, raw)) is Some {
        let r = first_where(rows, image_reuse(asset_uri, raw))->0;
        let i = choose|i: int| 0 <= i < rows.len() && rows[i] == r;
        assert(reusable_image(rows[i], asset_uri, raw));
    }
}

/// Self-exclusion for the animation dedup lookup.
pub proof fn lemma_animation_reuse_excludes_self(rows: Seq<NFTMetadataCrawlerURIsQuery>, asset_uri: Seq<char>, raw: Seq<char>)
    ensures
        first_where(rows, animation_reuse(asset_uri, raw)) matches Some(r) ==> r.asset_uri@ != asset_uri,
{
    lemma_first_where(rows, animation_reuse(asset_uri, raw));
}

/// A row without a CDN animation is never returned by the animation dedup
/// lookup; what it returns is a row of the table with the asked raw animation URI.
pub proof fn lemma_animation_reuse_needs_cdn(rows: Seq<NFTMetadataCrawlerURIsQuery>, asset_uri: Seq<char>, raw: Seq<char>)
    ensures
        first_where(rows, animation_reuse(asset_uri, raw)) matches Some(r) ==> {
            &&& r.cdn_animation_uri is Some
            &&& holds_text(r.raw_animation_uri, raw)
            &&& rows.contains(r)
        },
{
    lemma_first_where(rows, animation_reuse(asset_uri, raw));
}

/// The animation dedup lookup finds nothing exactly when no other asset's
/// row has the raw animation URI and a CDN animation.
pub proof fn lemma_animation_reuse_none(rows: Seq<NFTMetadataCrawlerURIsQuery>, asset_uri: Seq<char>, raw: Seq<char>)
    ensures
        first_where(rows, animation_reuse(asset_uri, raw)) is None
            <==> forall|i: int| 0 <= i < rows.len() ==> !reusable_animation(#[trigger] rows[i], asset_uri, raw),
{
    lemma_first_where(rows, animation_reuse(asset_uri, raw));
    if first_where(rows, animation_reuse(asset_uri, raw)) is Some {
        let r = first_where(rows, animation_reuse(asset_uri, raw))->0;
        let i = choose|i: int| 0 <= i < rows.len() && rows[i] == r;
        assert(reusable_animation(rows[i], asset_uri, raw));
    }
}

/// In a table whose primary keys are unique, the lookup by a row's key
/// returns exactly that row, and a key that no row has gives `None`.
pub proof fn lemma_key_lookup(rows: Seq<NFTMetadataCrawlerURIsQuery>, key: Seq<char>)
    requires
        keys_unique(rows),
    ensures
        forall|i: int| 0 <= i < rows.len() && rows[i].asset_uri@ == key
            ==> first_where(rows, has_key(key)) == Some(rows[i]),
        (forall|i: int| 0 <= i < rows.len() ==> rows[i].asset_uri@ != key)
            ==> first_where(rows, has_key(key)) is None,
{
    lemma_first_where(rows, has_key(key));
    assert forall|i: int| 0 <= i < rows.len() && rows[i].asset_uri@ == key
        implies first_where(rows, has_key(key)) == Some(rows[i]) by {
        assert((has_key(key))(rows[i]));
        let r = first_where(rows, has_key(key))->0;
        let j = choose|j: int| 0 <= j < rows.len() && rows[j] == r;
        assert(rows[j].asset_uri@ == key);
    }
    if forall|i: int| 0 <= i < rows.len() ==> rows[i].asset_uri@ != key {
        if first_where(rows, has_key(key)) is Some {
            let r = first_where(rows, has_key(key))->0;
            let j = choose|j: int| 0 <= j < rows.len() && rows[j] == r;
            assert(rows[j].asset_uri@ != key);
        }
    }
}

} // verus!
