//! The reference entity: a minimal article record.
//!
//! It implements the entity contract and a small hook policy — a locked
//! row refuses updates and deletes — and serves as the implementation
//! template for host-defined entities: every obligation of the contract is
//! discharged here once, concretely.

use crate::column::ColumnValue;
use crate::entity::Entity;
use crate::hooks::EntityHooks;
use vstd::prelude::*;
use vstd::string::*;

verus! {

/// A minimal article record: an identifier, a title, a publication flag
/// and a lock guarding it against modification.
#[derive(PartialEq, Eq, Debug)]
pub struct Article {
    pub id: u64,
    pub title: String,
    pub published: bool,
    pub locked: bool,
}

impl Clone for Article {
    fn clone(&self) -> (r: Self)
        ensures
            r == *self,
    {
        Article {
            id: self.id,
            title: self.title.clone(),
            published: self.published,
            locked: self.locked,
        }
    }
}

/// The reason the article policy refuses an operation.
#[derive(Clone, Copy, PartialEq, Eq, Structural, Debug)]
pub enum ArticleVeto {
    /// the stored row is locked against updates and deletes
    Locked,
}

impl Entity for Article {
    open spec fn spec_name() -> Seq<char> {
        "Article"@
    }

    open spec fn spec_name_plural() -> Seq<char> {
        "Articles"@
    }

    open spec fn spec_id_field() -> Seq<char> {
        "id"@
    }

    open spec fn spec_column_names() -> Seq<Seq<char>> {
        seq!["title"@, "published"@, "locked"@]
    }

    open spec fn spec_columns(&self) -> Seq<ColumnValue> {
        seq![
            ColumnValue::Text(self.title),
            ColumnValue::Bool(self.published),
            ColumnValue::Bool(self.locked),
        ]
    }

    open spec fn spec_id(&self) -> u64 {
        self.id
    }

    open spec fn spec_with_id(self, id: u64) -> Self {
        Article { id, ..self }
    }

    open spec fn spec_from_columns(id: u64, values: Seq<ColumnValue>) -> Option<Self> {
        if values.len() == 3 && values[0] is Text && values[1] is Bool && values[2] is Bool {
            Some(
                Article {
                    id,
                    title: values[0]->Text_0,
                    published: values[1]->Bool_0,
                    locked: values[2]->Bool_0,
                },
            )
        } else {
            None
        }
    }

    proof fn lemma_columns_aligned(&self) {
    }

    proof fn lemma_with_id(self, id: u64) {
    }

    proof fn lemma_from_columns_round_trip(&self) {
    }

    fn name() -> (r: &'static str) {
        "Article"
    }

    fn name_plural() -> (r: &'static str) {
        "Articles"
    }

    fn id_field_name() -> (r: &'static str) {
        "id"
    }

    fn id(&self) -> (r: u64) {
        self.id
    }

    fn set_id(&mut self, id: u64) {
        self.id = id;
    }

    fn column_names() -> (r: Vec<String>) {
        let mut r: Vec<String> = Vec::new();
        r.push(String::from_str("title"));
        r.push(String::from_str("published"));
        r.push(String::from_str("locked"));
        proof {
            assert(r.deep_view() =~= Self::spec_column_names());
        }
        r
    }

    fn column_values(&self) -> (r: Vec<ColumnValue>) {
        let mut r: Vec<ColumnValue> = Vec::new();
        r.push(ColumnValue::Text(self.title.clone()));
        r.push(ColumnValue::Bool(self.published));
        r.push(ColumnValue::Bool(self.locked));
        proof {
            assert(r@ =~= self.spec_columns());
        }
        r
    }

    fn from_columns(id: u64, values: Vec<ColumnValue>) -> (r: Option<Self>) {
        if values.len() != 3 {
            return None;
        }
        let title = match &values[0] {
            ColumnValue::Text(t) => t.clone(),
            _ => {
                return None;
            },
        };
        let published = match &values[1] {
            ColumnValue::Bool(b) => *b,
            _ => {
                return None;
            },
        };
        let locked = match &values[2] {
            ColumnValue::Bool(b) => *b,
            _ => {
                return None;
            },
        };
        Some(Article { id, title, published, locked })
    }
}

impl EntityHooks for Article {
    /// the request-scoped actor name, as extracted by the host
    type RequestExt = String;

    type HookError = ArticleVeto;

    open spec fn spec_on_create(self, ext: String) -> Result<Self, ArticleVeto> {
        Ok(self)
    }

    open spec fn spec_on_update(old_row: Self, new_row: Self, ext: String) -> Result<
        Self,
        ArticleVeto,
    > {
        if old_row.locked {
            Err(ArticleVeto::Locked)
        } else {
            Ok(new_row)
        }
    }

    open spec fn spec_on_delete(self, ext: String) -> Result<Self, ArticleVeto> {
        if self.locked {
            Err(ArticleVeto::Locked)
        } else {
            Ok(self)
        }
    }

    fn on_create(self, ext: String) -> (r: Result<Self, ArticleVeto>) {
        Ok(self)
    }

    fn on_update(old_row: Self, new_row: Self, ext: String) -> (r: Result<Self, ArticleVeto>) {
        if old_row.locked {
            Err(ArticleVeto::Locked)
        } else {
            Ok(new_row)
        }
    }

    fn on_delete(self, ext: String) -> (r: Result<Self, ArticleVeto>) {
        if self.locked {
            Err(ArticleVeto::Locked)
        } else {
            Ok(self)
        }
    }
}

} // verus!
