//! Products and their validation: a product's name must not be empty
//! or whitespace only.

use vstd::prelude::*;

use crate::dtos::CreateProductRequest;
use crate::errors::AppError;
use crate::errors::DomainError;
use crate::idempotency::str_trim;
use crate::idempotency::trim_of;

verus! {

/// A validated product name: not empty once trimmed.
#[derive(Clone, Debug)]
pub struct ProductName {
    name: String,
}

impl View for ProductName {
    type V = Seq<char>;

    closed spec fn view(&self) -> Seq<char> {
        self.name@
    }
}

impl ProductName {
    /// Validates a product name: accepts the text as given exactly when
    /// trimming leaves something of it, and rejects an empty or
    /// whitespace-only name as a domain error.
    pub fn new(value: String) -> (r: Result<ProductName, AppError>)
        ensures
            r is Ok <==> trim_of(value@).len() != 0,
            r matches Ok(name) ==> name@ == value@,
            r is Err ==> r matches Err(AppError::Domain(DomainError::ProductNameEmpty)),
    {
        let trimmed: &str = str_trim(value.as_str());
        if trimmed.is_empty() {
            return Err(AppError::Domain(DomainError::ProductNameEmpty));
        }
        Ok(ProductName { name: value })
    }

    /// The validated text.
    pub fn as_str(&self) -> (r: &str)
        ensures
            r@ == self@,
    {
        self.name.as_str()
    }
}

/// A product of the catalogue.
#[derive(Clone, Debug)]
pub struct Product {
    pub id: u128,
    pub name: ProductName,
    pub created_at: i64,
}

/// Everything needed to create one product.
#[derive(Clone, Debug)]
pub struct CreateProductCommand {
    pub id: u128,
    pub name: String,
}

impl CreateProductCommand {
    /// Builds the creation command of a request, under a drawn id.
    pub fn from_request(request: CreateProductRequest, id: u128) -> (r: CreateProductCommand)
        ensures
            r.id == id,
            r.name@ == request.name@,
    {
        CreateProductCommand { id, name: request.name }
    }
}

impl Product {
    /// Builds a product from a creation command: succeeds exactly when
    /// the command's name validates.
    pub fn from_command(command: CreateProductCommand, created_at: i64) -> (r: Result<
        Product,
        AppError,
    >)
        ensures
            r is Ok <==> trim_of(command.name@).len() != 0,
            r matches Ok(p) ==> p.id == command.id && p.name@ == command.name@ && p.created_at
                == created_at,
            r is Err ==> r matches Err(AppError::Domain(DomainError::ProductNameEmpty)),
    {
        let name = match ProductName::new(command.name) {
            Ok(n) => n,
            Err(e) => {
                return Err(e);
            },
        };
        Ok(Product { id: command.id, name, created_at })
    }
}

} // verus!
