//! The declared configuration: the products a project wants to exist remotely.

use crate::table::Table;
use crate::text::opt_view;
use vstd::prelude::*;

verus! {

/// The two categories of product.
#[derive(Debug, Clone, Copy, PartialEq, Eq, Structural)]
pub enum ProductType {
    /// A one-time purchase.
    DevProduct,
    /// A pass that grants lasting access.
    Gamepass,
}

impl ProductType {
    /// The name of the category as it is shown to the user.
    pub open spec fn label(self) -> Seq<char> {
        match self {
            ProductType::DevProduct => "DevProduct"@,
            ProductType::Gamepass => "Gamepass"@,
        }
    }

    /// The name of the category: `DevProduct` or `Gamepass`.
    pub fn to_string(&self) -> (s: String)
        ensures
            s@ == self.label(),
    {
        match self {
            ProductType::DevProduct => "DevProduct".to_owned(),
            ProductType::Gamepass => "Gamepass".to_owned(),
        }
    }
}

/// One declared product.
#[derive(Debug, Clone, PartialEq, Eq)]
pub struct Product {
    pub product_type: ProductType,
    pub name: String,
    pub price: u64,
    pub description: Option<String>,
    /// Path of the local image file, if the product has an image.
    pub image: Option<String>,
    /// A remote identifier pinned by the user. It wins over any recorded one.
    pub product_id: Option<u64>,
    /// Whether a gamepass is off sale. Dev products ignore it.
    pub offsale: bool,
}

/// A product as a mathematical value.
pub struct ProductView {
    pub product_type: ProductType,
    pub name: Seq<char>,
    pub price: u64,
    pub description: Option<Seq<char>>,
    pub image: Option<Seq<char>>,
    pub product_id: Option<u64>,
    pub offsale: bool,
}

impl View for Product {
    type V = ProductView;

    open spec fn view(&self) -> ProductView {
        ProductView {
            product_type: self.product_type,
            name: self.name@,
            price: self.price,
            description: opt_view(self.description),
            image: opt_view(self.image),
            product_id: self.product_id,
            offsale: self.offsale,
        }
    }
}

/// Where generated code is written.
#[derive(Debug, Clone, PartialEq, Eq)]
pub struct OutputConfig {
    pub path: String,
    pub typescript: bool,
}

/// The whole declared configuration.
#[derive(Debug, Clone)]
pub struct Config {
    /// The remote universe that all products belong to.
    pub universe_id: u64,
    pub output: Option<OutputConfig>,
    /// The declared products by key, in declaration order.
    pub products: Table<Product>,
}

/// Two products of one category declared with the same name.
#[derive(Debug, Clone, PartialEq, Eq)]
pub struct DuplicateName {
    pub product_type: ProductType,
    pub name: String,
    /// The key that declares the name first.
    pub first_key: String,
    /// The key that declares it again.
    pub second_key: String,
}

/// A duplicate as a mathematical value.
pub struct DuplicateNameView {
    pub product_type: ProductType,
    pub name: Seq<char>,
    pub first_key: Seq<char>,
    pub second_key: Seq<char>,
}

impl View for DuplicateName {
    type V = DuplicateNameView;

    open spec fn view(&self) -> DuplicateNameView {
        DuplicateNameView {
            product_type: self.product_type,
            name: self.name@,
            first_key: self.first_key@,
            second_key: self.second_key@,
        }
    }
}

impl DuplicateNameView {
    /// The message that reports the duplicate.
    pub open spec fn message(self) -> Seq<char> {
        "Duplicate "@ + self.product_type.label() + " name \""@ + self.name
            + "\" found in keys \""@ + self.first_key + "\" and \""@ + self.second_key + "\""@
    }
}

impl DuplicateName {
    /// The message that reports the duplicate.
    pub fn to_string(&self) -> (s: String)
        ensures
            s@ == self@.message(),
    {
        let mut s = "Duplicate ".to_owned();
        s.append(self.product_type.to_string().as_str());
        s.append(" name \"");
        s.append(self.name.as_str());
        s.append("\" found in keys \"");
        s.append(self.first_key.as_str());
        s.append("\" and \"");
        s.append(self.second_key.as_str());
        s.append("\"");
        s
    }
}

/// Whether two products have the same category and the same name.
pub open spec fn same_name(a: ProductView, b: ProductView) -> bool {
    a.product_type == b.product_type && a.name == b.name
}

/// Whether no two of the first `n` products have the same category and name.
pub open spec fn names_unique_below(products: Seq<ProductView>, n: int) -> bool {
    forall|a: int, b: int| 0 <= a < b < n ==> !same_name(products[a], products[b])
}

/// Whether no two products have the same category and name.
pub open spec fn names_unique(products: Seq<ProductView>) -> bool {
    names_unique_below(products, products.len() as int)
}

/// Checks that no two products of one category share a name.
///
/// On failure the error names the first product, in declaration order, whose
/// name was declared before in its category, together with the product that
/// declared it.
pub fn validate_no_duplicate_names(config: &Config) -> (r: Result<(), DuplicateName>)
    ensures
        r is Ok <==> names_unique(config.products.values()),
        r matches Err(d) ==> exists|i: int, j: int|
            0 <= i < j < config.products.values().len() && same_name(
                config.products.values()[i],
                config.products.values()[j],
            ) && names_unique_below(config.products.values(), j) && d@ == (DuplicateNameView {
                product_type: config.products.values()[j].product_type,
                name: config.products.values()[j].name,
                first_key: config.products.keys()[i],
                second_key: config.products.keys()[j],
            }),
{
    let n = config.products.len();
    let ghost values = config.products.values();
    let mut j: usize = 0;
    while j < n
        invariant
            j <= n,
            n == config.products.keys().len(),
            n == values.len(),
            values == config.products.values(),
            names_unique_below(values, j as int),
        decreases n - j,
    {
        let later = config.products.value_at(j);
        let mut i: usize = 0;
        while i < j
            invariant
                i <= j < n,
                n == config.products.keys().len(),
                n == values.len(),
                values == config.products.values(),
                later@ == values[j as int],
                names_unique_below(values, j as int),
                forall|a: int| 0 <= a < i ==> !same_name(values[a], values[j as int]),
            decreases j - i,
        {
            let earlier = config.products.value_at(i);
            if earlier.product_type == later.product_type && earlier.name.as_str().eq(
                later.name.as_str(),
            ) {
                let d = DuplicateName {
                    product_type: later.product_type,
                    name: later.name.clone(),
                    first_key: config.products.key_at(i).clone(),
                    second_key: config.products.key_at(j).clone(),
                };
                assert(same_name(values[i as int], values[j as int]));
                assert(!names_unique(values));
                return Err(d);
            }
            i = i + 1;
        }
        j = j + 1;
    }
    Ok(())
}

/// The configuration that a new project starts from: one example product of
/// each category.
pub fn create_default() -> (config: Config)
    ensures
        config.universe_id == 123456789,
        config.output matches Some(output) && output.path@ == "src/shared/modules/Products.luau"@
            && output.typescript,
        config.products.keys() == seq!["example_product"@, "example_gamepass"@],
        config.products.values() == seq![
            ProductView {
                product_type: ProductType::DevProduct,
                name: "Example Product"@,
                price: 100,
                description: Some("An example developer product"@),
                image: None,
                product_id: None,
                offsale: false,
            },
            ProductView {
                product_type: ProductType::Gamepass,
                name: "Example Gamepass"@,
                price: 500,
                description: Some("An example gamepass"@),
                image: None,
                product_id: None,
                offsale: false,
            },
        ],
{
    let mut products: Table<Product> = Table::new();
    products.insert(
        "example_product".to_owned(),
        Product {
            product_type: ProductType::DevProduct,
            name: "Example Product".to_owned(),
            price: 100,
            description: Some("An example developer product".to_owned()),
            image: None,
            product_id: None,
            offsale: false,
        },
    );
    proof {
        reveal_strlit("example_product");
        reveal_strlit("example_gamepass");
        assert("example_product"@[8] != "example_gamepass"@[8]);
        assert(!products.keys().contains("example_gamepass"@));
    }
    products.insert(
        "example_gamepass".to_owned(),
        Product {
            product_type: ProductType::Gamepass,
            name: "Example Gamepass".to_owned(),
            price: 500,
            description: Some("An example gamepass".to_owned()),
            image: None,
            product_id: None,
            offsale: false,
        },
    );
    Config {
        universe_id: 123456789,
        output: Some(
            OutputConfig { path: "src/shared/modules/Products.luau".to_owned(), typescript: true },
        ),
        products,
    }
}

} // verus!
