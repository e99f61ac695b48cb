//! Repository markers.  Each stands for the Postgres implementation of
//! one storage port; the SQL and the connections live with the runtime
//! around the library, keyed on these stateless types.

use vstd::prelude::*;

verus! {

/// Postgres-backed storage of flash sales.
#[derive(Clone, Copy, Debug)]
pub struct PostgresFlashSaleRepo;

impl PostgresFlashSaleRepo {
    /// A fresh marker; the type carries no state.
    pub fn new() -> (r: PostgresFlashSaleRepo)
        ensures
            r == PostgresFlashSaleRepo,
    {
        PostgresFlashSaleRepo
    }
}

/// Postgres-backed storage of orders.
#[derive(Clone, Copy, Debug)]
pub struct PostgresOrderRepo;

impl PostgresOrderRepo {
    /// A fresh marker; the type carries no state.
    pub fn new() -> (r: PostgresOrderRepo)
        ensures
            r == PostgresOrderRepo,
    {
        PostgresOrderRepo
    }
}

/// Postgres-backed storage of products.
#[derive(Clone, Copy, Debug)]
pub struct PostgresProductRepo;

impl PostgresProductRepo {
    /// A fresh marker; the type carries no state.
    pub fn new() -> (r: PostgresProductRepo)
        ensures
            r == PostgresProductRepo,
    {
        PostgresProductRepo
    }
}

/// Postgres-backed storage of users.
#[derive(Clone, Copy, Debug)]
pub struct PostgresUserRepo;

impl PostgresUserRepo {
    /// A fresh marker; the type carries no state.
    pub fn new() -> (r: PostgresUserRepo)
        ensures
            r == PostgresUserRepo,
    {
        PostgresUserRepo
    }
}

} // verus!
