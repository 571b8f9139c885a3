//! Request bodies and query parameters of the HTTP interface, and the
//! domain inputs they become.

use vstd::prelude::*;

use crate::domain::entity::category::{CreateCategoryInput, UpdateCategoryInput};
use crate::domain::entity::product::{CreateProductInput, UpdateProductInput};
use crate::domain::entity::report::ReportFilter;
use crate::domain::entity::stock::{CreateStockInput, CreateStockMovementInput};
use crate::domain::entity::warranty::CreateWarrantyInput;

verus! {

// ============================================================
// Products
// ============================================================

/// Body for creating a product.
#[derive(Debug)]
pub struct CreateProductDto {
    pub name: String,
    pub description: Option<String>,
    pub sku: String,
    pub brand: Option<String>,
}

impl CreateProductDto {
    pub fn into_input(self) -> (r: CreateProductInput)
        ensures
            r.name == self.name,
            r.description == self.description,
            r.sku == self.sku,
            r.brand == self.brand,
    {
        CreateProductInput { name: self.name, description: self.description, sku: self.sku, brand: self.brand }
    }
}

/// Body for updating a product.
#[derive(Debug)]
pub struct UpdateProductDto {
    pub name: Option<String>,
    pub description: Option<String>,
    pub brand: Option<String>,
}

impl UpdateProductDto {
    pub fn into_input(self) -> (r: UpdateProductInput)
        ensures
            r.name == self.name,
            r.description == self.description,
            r.brand == self.brand,
    {
        UpdateProductInput { name: self.name, description: self.description, brand: self.brand }
    }
}

/// Body for changing the status of a product.
#[derive(Debug)]
pub struct UpdateProductStatusDto {
    pub status: String,
}

// ============================================================
// Categories
// ============================================================

/// Body for creating a category.
#[derive(Debug)]
pub struct CreateCategoryDto {
    pub name: String,
    pub description: Option<String>,
    pub parent_id: Option<String>,
}

impl CreateCategoryDto {
    pub fn into_input(self) -> (r: CreateCategoryInput)
        ensures
            r.name == self.name,
            r.description == self.description,
            r.parent_id == self.parent_id,
    {
        CreateCategoryInput { name: self.name, description: self.description, parent_id: self.parent_id }
    }
}

/// Body for updating a category.
#[derive(Debug)]
pub struct UpdateCategoryDto {
    pub name: Option<String>,
    pub description: Option<String>,
    pub parent_id: Option<String>,
}

impl UpdateCategoryDto {
    pub fn into_input(self) -> (r: UpdateCategoryInput)
        ensures
            r.name == self.name,
            r.description == self.description,
            r.parent_id == self.parent_id,
    {
        UpdateCategoryInput { name: self.name, description: self.description, parent_id: self.parent_id }
    }
}

// ============================================================
// Stock
// ============================================================

/// Body for setting up the stock of a product.
#[derive(Debug)]
pub struct CreateStockDto {
    pub product_id: String,
    pub quantity: Option<i32>,
    pub min_quantity: Option<i32>,
    pub location: Option<String>,
}

impl CreateStockDto {
    pub fn into_input(self) -> (r: CreateStockInput)
        ensures
            r.product_id == self.product_id,
            r.quantity == self.quantity,
            r.min_quantity == self.min_quantity,
            r.location == self.location,
    {
        CreateStockInput {
            product_id: self.product_id,
            quantity: self.quantity,
            min_quantity: self.min_quantity,
            location: self.location,
        }
    }
}

/// Body for recording a stock movement.
#[derive(Debug)]
pub struct CreateStockMovementDto {
    pub product_id: String,
    pub movement_type: String,
    pub quantity: i32,
    pub reason: Option<String>,
    pub reference: Option<String>,
}

impl CreateStockMovementDto {
    pub fn into_input(self) -> (r: CreateStockMovementInput)
        ensures
            r.product_id == self.product_id,
            r.movement_type == self.movement_type,
            r.quantity == self.quantity,
            r.reason == self.reason,
            r.reference == self.reference,
    {
        CreateStockMovementInput {
            product_id: self.product_id,
            movement_type: self.movement_type,
            quantity: self.quantity,
            reason: self.reason,
            reference: self.reference,
        }
    }
}

// ============================================================
// Warranties
// ============================================================

/// Body for registering a warranty.
#[derive(Debug)]
pub struct CreateWarrantyDto {
    pub product_id: String,
    pub customer_name: String,
    pub customer_contact: Option<String>,
    pub purchase_date: String,
    pub warranty_days: i32,
    pub notes: Option<String>,
}

impl CreateWarrantyDto {
    pub fn into_input(self) -> (r: CreateWarrantyInput)
        ensures
            r.product_id == self.product_id,
            r.customer_name == self.customer_name,
            r.customer_contact == self.customer_contact,
            r.purchase_date == self.purchase_date,
            r.warranty_days == self.warranty_days,
            r.notes == self.notes,
    {
        CreateWarrantyInput {
            product_id: self.product_id,
            customer_name: self.customer_name,
            customer_contact: self.customer_contact,
            purchase_date: self.purchase_date,
            warranty_days: self.warranty_days,
            notes: self.notes,
        }
    }
}

/// Body for changing the status of a warranty.
#[derive(Debug)]
pub struct UpdateWarrantyStatusDto {
    pub status: String,
}

// ============================================================
// Reports
// ============================================================

/// Query parameters of the reports.
#[derive(Debug)]
pub struct ReportFilterDto {
    pub start_date: Option<String>,
    pub end_date: Option<String>,
}

impl ReportFilterDto {
    pub fn into_filter(self) -> (r: ReportFilter)
        ensures
            r.start_date == self.start_date,
            r.end_date == self.end_date,
    {
        ReportFilter { start_date: self.start_date, end_date: self.end_date }
    }
}

} // verus!
