//! The records that pass between the user interface, the database and Steam,
//! and the application's error type.
use vstd::prelude::*;

use crate::text::{is_blank, is_blank_text};

verus! {

/// A request to refresh the price of one item.
pub struct RefreshArgs {
    pub item_name: String,
}

/// A request to add an item to the inventory.
pub struct AddItemArgs {
    pub name: String,
    pub quantity: u32,
}

/// The message for an item name that is empty once trimmed.
pub open spec fn empty_name_message() -> Seq<char> {
    "Item name cannot be empty"@
}

impl AddItemArgs {
    /// Refuses an item whose name is empty or white space only.
    pub fn validate(&self) -> (r: Result<(), String>)
        ensures
            match r {
                Ok(()) => !is_blank(self.name@),
                Err(m) => is_blank(self.name@) && m@ == empty_name_message(),
            },
    {
        if is_blank_text(self.name.as_str()) {
            return Err("Item name cannot be empty".to_owned());
        }
        Ok(())
    }
}

/// One inventory row: an item and how many the user holds.
pub struct InventoryItem {
    pub market_hash_name: String,
    pub quantity: u32,
}

/// Catalogue data about an item.
pub struct ItemMetadata {
    pub market_hash_name: String,
    pub appid: u64,
    pub rarity: Option<String>,
    pub item_type: Option<String>,
    pub collection: Option<String>,
    pub icon_url: Option<String>,
}

/// The application's errors, each with a description.
pub enum SkinVoltError {
    Database(String),
    Steam(String),
    Unknown(String),
}

/// The text of an error: its kind, a colon and its description.
pub open spec fn error_message(e: SkinVoltError) -> Seq<char> {
    match e {
        SkinVoltError::Database(s) => "Database error: "@ + s@,
        SkinVoltError::Steam(s) => "Steam API error: "@ + s@,
        SkinVoltError::Unknown(s) => "Unknown error: "@ + s@,
    }
}

impl SkinVoltError {
    /// The text of the error.
    pub fn message(&self) -> (r: String)
        ensures
            r@ == error_message(*self),
    {
        let (mut m, detail) = match self {
            SkinVoltError::Database(s) => ("Database error: ".to_owned(), s),
            SkinVoltError::Steam(s) => ("Steam API error: ".to_owned(), s),
            SkinVoltError::Unknown(s) => ("Unknown error: ".to_owned(), s),
        };
        m.append(detail.as_str());
        m
    }
}

} // verus!
