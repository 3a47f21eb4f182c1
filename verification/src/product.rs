//! The canonical product record, the third-party catalog's record, and the
//! mapping from the second to the first.

use crate::copy::{clone_optional_text, clone_texts};
use vstd::prelude::*;
use vstd::std_specs::convert::FromSpec;

verus! {

/// The service's own record of a product, as it is persisted.
#[derive(Debug, PartialEq, Eq)]
pub struct Product {
    pub name: String,
    pub image: Option<String>,
    pub quantity: Option<u64>,
    pub category: Option<Vec<String>>,
    pub barcode: Option<String>,
}

/// What a [`Product`] holds, as mathematical values.
pub struct ProductView {
    pub name: Seq<char>,
    pub image: Option<Seq<char>>,
    pub quantity: Option<u64>,
    pub category: Option<Seq<Seq<char>>>,
    pub barcode: Option<Seq<char>>,
}

impl View for Product {
    type V = ProductView;

    open spec fn view(&self) -> ProductView {
        ProductView {
            name: self.name@,
            image: self.image.deep_view(),
            quantity: self.quantity,
            category: self.category.deep_view(),
            barcode: self.barcode.deep_view(),
        }
    }
}

/// A record of the third-party food-product database: the identifier it files
/// the product under (the barcode) and a block of details.
#[derive(Debug, PartialEq, Eq)]
pub struct OpenFoodFactProduct {
    pub id: String,
    pub product: OpenFoodFactProductDetail,
}

/// The detail block of an [`OpenFoodFactProduct`].
#[derive(Debug, PartialEq, Eq)]
pub struct OpenFoodFactProductDetail {
    pub name: String,
    pub image: String,
}

/// What an [`OpenFoodFactProductDetail`] holds.
pub struct OpenFoodFactProductDetailView {
    pub name: Seq<char>,
    pub image: Seq<char>,
}

/// What an [`OpenFoodFactProduct`] holds.
pub struct OpenFoodFactProductView {
    pub id: Seq<char>,
    pub product: OpenFoodFactProductDetailView,
}

impl View for OpenFoodFactProductDetail {
    type V = OpenFoodFactProductDetailView;

    open spec fn view(&self) -> OpenFoodFactProductDetailView {
        OpenFoodFactProductDetailView { name: self.name@, image: self.image@ }
    }
}

impl View for OpenFoodFactProduct {
    type V = OpenFoodFactProductView;

    open spec fn view(&self) -> OpenFoodFactProductView {
        OpenFoodFactProductView { id: self.id@, product: self.product@ }
    }
}

/// A request for the product of a given name.
#[derive(Clone, Debug, PartialEq, Eq)]
pub struct ProductQuery {
    pub name: String,
}

/// The canonical record that a catalog record stands for: name and image are
/// taken from the detail block, the barcode is the catalog's identifier, and
/// quantity and category are left open, whatever the catalog says of them.
pub open spec fn normalized(record: OpenFoodFactProductView) -> ProductView {
    ProductView {
        name: record.product.name,
        image: Some(record.product.image),
        quantity: None,
        category: None,
        barcode: Some(record.id),
    }
}

impl From<OpenFoodFactProduct> for Product {
    fn from(product: OpenFoodFactProduct) -> (canonical: Product) {
        Product {
            name: product.product.name,
            image: Some(product.product.image),
            quantity: None,
            category: None,
            barcode: Some(product.id),
        }
    }
}

impl vstd::std_specs::convert::FromSpecImpl<OpenFoodFactProduct> for Product {
    open spec fn obeys_from_spec() -> bool {
        true
    }

    open spec fn from_spec(product: OpenFoodFactProduct) -> Product {
        Product {
            name: product.product.name,
            image: Some(product.product.image),
            quantity: None,
            category: None,
            barcode: Some(product.id),
        }
    }
}

/// Turns a catalog record into the canonical record. Every catalog record has
/// one: nothing in it can make the mapping fail.
pub fn normalize(record: OpenFoodFactProduct) -> (canonical: Product)
    ensures
        canonical@ == normalized(record@),
        canonical == Product::from_spec(record),
{
    Product::from(record)
}

impl Clone for Product {
    fn clone(&self) -> (copy: Product)
        ensures
            copy@ == self@,
    {
        let category = match &self.category {
            Some(texts) => Some(clone_texts(texts)),
            None => None,
        };
        Product {
            name: self.name.clone(),
            image: clone_optional_text(&self.image),
            quantity: self.quantity,
            category,
            barcode: clone_optional_text(&self.barcode),
        }
    }
}

impl Clone for OpenFoodFactProductDetail {
    fn clone(&self) -> (copy: OpenFoodFactProductDetail)
        ensures
            copy@ == self@,
    {
        OpenFoodFactProductDetail { name: self.name.clone(), image: self.image.clone() }
    }
}

impl Clone for OpenFoodFactProduct {
    fn clone(&self) -> (copy: OpenFoodFactProduct)
        ensures
            copy@ == self@,
    {
        OpenFoodFactProduct { id: self.id.clone(), product: self.product.clone() }
    }
}

/// Normalising is a function of what the record holds: two records with the
/// same contents, and so the same record taken twice, give canonical records
/// with the same contents.
pub proof fn lemma_normalize_is_repeatable(first: OpenFoodFactProduct, second: OpenFoodFactProduct)
    requires
        first@ == second@,
    ensures
        Product::from_spec(first)@ == Product::from_spec(second)@,
        Product::from_spec(first)@ == normalized(first@),
{
}

/// A canonical record fresh from the catalog always has a name, an image and
/// a barcode, and never a quantity or a category.
pub proof fn lemma_normalize_is_total(record: OpenFoodFactProductView)
    ensures
        normalized(record).name == record.product.name,
        normalized(record).image == Some(record.product.image),
        normalized(record).barcode == Some(record.id),
        normalized(record).quantity is None,
        normalized(record).category is None,
{
}

} // verus!
