//! Edits: one content change of an article, addressed by the hash of its
//! diff, and the form that builds one.
use crate::article::DbArticle;
use crate::clock::now_millis;
use crate::diff::create_patch_string;
use crate::diff::patch_of;
use crate::error::ApiError;
use crate::ids::check_url;
use crate::ids::edit_ap_id;
use crate::ids::make_edit_ap_id;
use crate::ids::url_parses;
use crate::version::version_of;
use crate::version::EditVersion;
use vstd::prelude::*;

verus! {

/// One applied or recorded content change.
#[derive(Clone, Debug)]
pub struct DbEdit {
    /// Content address of `diff`.
    pub hash: EditVersion,
    /// Global identifier; the key of the idempotent upsert.
    pub ap_id: String,
    /// Textual patch from the text as of `previous_version_id` to the text
    /// as of `hash`.
    pub diff: String,
    pub summary: String,
    pub creator_id: i32,
    /// Local ordinal of the owning article.
    pub article_id: i32,
    /// Parent version; the root sentinel for a first edit.
    pub previous_version_id: EditVersion,
    /// Milliseconds since the Unix epoch.
    pub created: i64,
}

impl DbEdit {
    /// An exact copy; unlike a derived clone, its contract says so.
    pub fn duplicate(&self) -> (r: Self)
        ensures
            r == *self,
    {
        DbEdit {
            hash: self.hash,
            ap_id: self.ap_id.clone(),
            diff: self.diff.clone(),
            summary: self.summary.clone(),
            creator_id: self.creator_id,
            article_id: self.article_id,
            previous_version_id: self.previous_version_id,
            created: self.created,
        }
    }
}

/// The fields of an edit before it is persisted.
#[derive(Clone, Debug)]
pub struct DbEditForm {
    pub hash: EditVersion,
    pub ap_id: String,
    pub diff: String,
    pub summary: String,
    pub creator_id: i32,
    pub article_id: i32,
    pub previous_version_id: EditVersion,
    pub created: i64,
}

impl DbEditForm {
    /// Computes the diff from the article's current text to `updated_text`,
    /// the content-address version of that diff, and the edit's global
    /// identifier. Fails only when the identifier is not URL-shaped.
    pub fn new(
        original_article: &DbArticle,
        creator_id: i32,
        updated_text: &str,
        summary: String,
        previous_version_id: EditVersion,
    ) -> (r: Result<Self, ApiError>)
        ensures
            match r {
                Ok(f) => {
                    &&& url_parses(edit_ap_id(original_article.ap_id@, f.hash))
                    &&& f.diff@ == patch_of(original_article.text@, updated_text@)
                    &&& crate::diff::apply_patch_spec(original_article.text@, f.diff@) == Some(
                        updated_text@,
                    )
                    &&& f.hash == version_of(f.diff@)
                    &&& f.ap_id@ == edit_ap_id(original_article.ap_id@, f.hash)
                    &&& f.summary == summary
                    &&& f.creator_id == creator_id
                    &&& f.article_id == original_article.id
                    &&& f.previous_version_id == previous_version_id
                },
                Err(e) => {
                    &&& e == ApiError::Malformed
                    &&& !url_parses(
                        edit_ap_id(
                            original_article.ap_id@,
                            version_of(patch_of(original_article.text@, updated_text@)),
                        ),
                    )
                },
            },
    {
        let diff = create_patch_string(original_article.text.as_str(), updated_text);
        let version = EditVersion::new(diff.as_str());
        let ap_id = Self::generate_ap_id(original_article, &version)?;
        Ok(DbEditForm {
            hash: version,
            ap_id,
            diff,
            summary,
            creator_id,
            article_id: original_article.id,
            previous_version_id,
            created: now_millis(),
        })
    }

    /// Builds an edit's global identifier and checks that it is URL-shaped.
    pub fn generate_ap_id(article: &DbArticle, version: &EditVersion) -> (r: Result<
        String,
        ApiError,
    >)
        ensures
            match r {
                Ok(id) => id@ == edit_ap_id(article.ap_id@, *version) && url_parses(id@),
                Err(e) => e == ApiError::Malformed && !url_parses(
                    edit_ap_id(article.ap_id@, *version),
                ),
            },
    {
        let id = make_edit_ap_id(&article.ap_id, version);
        if check_url(id.as_str()) {
            Ok(id)
        } else {
            Err(ApiError::Malformed)
        }
    }
}

} // verus!
