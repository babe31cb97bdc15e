//! The `example` table: a UUID key and a text column.

use vstd::prelude::*;
use crate::entities::ActiveValue;

verus! {

/// A stored record.
#[derive(Clone, Debug, PartialEq, Eq)]
pub struct Model {
    pub id: u128,
    pub contents: String,
}

/// The abstract value of a stored record.
pub struct ModelView {
    pub id: u128,
    pub contents: Seq<char>,
}

impl View for Model {
    type V = ModelView;

    open spec fn view(&self) -> ModelView {
        ModelView { id: self.id, contents: self.contents@ }
    }
}

/// A record to be written.
#[derive(Clone, Debug, PartialEq, Eq)]
pub struct ActiveModel {
    pub id: ActiveValue<u128>,
    pub contents: ActiveValue<String>,
}

/// The abstract value of a record to be written.
pub struct ActiveModelView {
    pub id: ActiveValue<u128>,
    pub contents: ActiveValue<Seq<char>>,
}

/// The abstract value of a text column value.
pub open spec fn text_value_view(v: ActiveValue<String>) -> ActiveValue<Seq<char>> {
    match v {
        ActiveValue::Assigned(s) => ActiveValue::Assigned(s@),
        ActiveValue::Unchanged(s) => ActiveValue::Unchanged(s@),
        ActiveValue::NotSet => ActiveValue::NotSet,
    }
}

impl View for ActiveModel {
    type V = ActiveModelView;

    open spec fn view(&self) -> ActiveModelView {
        ActiveModelView { id: self.id, contents: text_value_view(self.contents) }
    }
}

/// The record to write that sets both columns.
pub open spec fn set_all(id: u128, contents: Seq<char>) -> ActiveModelView {
    ActiveModelView { id: ActiveValue::Assigned(id), contents: ActiveValue::Assigned(contents) }
}

} // verus!
