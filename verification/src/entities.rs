//! The stored records, as the services read and write them.
use vstd::prelude::*;
use crate::decimal::Price;

verus! {

/// A point in time without a time zone, carried through unchanged.
#[verifier::external_type_specification]
#[verifier::external_body]
pub struct ExNaiveDateTime(chrono::NaiveDateTime);

/// A stored category.
#[derive(Debug)]
pub struct CategoryRow {
    pub id: u128,
    pub name: String,
    pub slug: String,
    pub description: Option<String>,
    pub image: String,
    pub created_at: chrono::NaiveDateTime,
    pub updated_at: chrono::NaiveDateTime,
    pub deleted_at: Option<chrono::NaiveDateTime>,
}

/// A stored product.
#[derive(Debug)]
pub struct ProductRow {
    pub id: u128,
    pub name: String,
    pub slug: String,
    pub category_id: u128,
    pub description: String,
    pub long_description: String,
    pub price: Price,
    pub compared_at_price: Price,
    pub review_count: i32,
    pub rating: i32,
    pub sku: String,
    pub tagline: String,
    pub stock: i32,
    pub is_new: Option<bool>,
    pub is_featured: Option<bool>,
    pub is_best_seller: Option<bool>,
    pub created_at: chrono::NaiveDateTime,
    pub updated_at: chrono::NaiveDateTime,
    pub deleted_at: Option<chrono::NaiveDateTime>,
}

/// A stored product image.
#[derive(Clone, Debug, PartialEq, Eq)]
pub struct ProductImageRow {
    pub id: u128,
    pub product_id: u128,
    pub image_url: String,
}

/// A stored product feature line.
#[derive(Clone, Debug, PartialEq, Eq)]
pub struct ProductFeatureRow {
    pub id: u128,
    pub product_id: u128,
    pub name: String,
}

/// A stored user.
#[derive(Clone, Debug, PartialEq, Eq)]
pub struct UserRow {
    pub id: u128,
    pub name: String,
    pub email: String,
}

/// A stored post.
#[derive(Clone, Debug, PartialEq, Eq)]
pub struct PostRow {
    pub id: i32,
    pub title: String,
    pub text: String,
}

/// The role of a user account.
#[derive(Clone, Copy, Debug, PartialEq, Eq)]
pub enum Roles {
    User,
    Admin,
}

impl Roles {
    /// The role's stored name.
    pub fn as_str(&self) -> (r: &'static str)
        ensures
            r@ == (match *self {
                Roles::Admin => "admin"@,
                Roles::User => "user"@,
            }),
    {
        match self {
            Roles::Admin => "admin",
            Roles::User => "user",
        }
    }
}

impl CategoryRow {
    /// A copy of the record.
    pub fn duplicate(&self) -> (r: CategoryRow)
        ensures
            r.id == self.id,
            r.name@ == self.name@,
            r.slug@ == self.slug@,
            opt_text(r.description) == opt_text(self.description),
            r.image@ == self.image@,
            r.created_at == self.created_at,
            r.updated_at == self.updated_at,
            r.deleted_at == self.deleted_at,
    {
        CategoryRow {
            id: self.id,
            name: self.name.clone(),
            slug: self.slug.clone(),
            description: match &self.description {
                Some(d) => Some(d.clone()),
                None => None,
            },
            image: self.image.clone(),
            created_at: self.created_at,
            updated_at: self.updated_at,
            deleted_at: self.deleted_at,
        }
    }
}

/// The characters of an optional text.
pub open spec fn opt_text(s: Option<String>) -> Option<Seq<char>> {
    match s {
        Some(t) => Some(t@),
        None => None,
    }
}

} // verus!
