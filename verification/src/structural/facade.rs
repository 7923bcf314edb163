//! Facade: one checkout entry point in front of the cart, payment,
//! inventory and delivery services.

use vstd::prelude::*;
use vstd::string::StringExecFns;

verus! {

pub struct Item {
    pub id: String,
    pub name: String,
    pub price: u32,
}

pub struct User {
    pub id: u32,
    pub name: String,
}

#[allow(non_camel_case_types)]
pub enum OrderStatus {
    WAITING_FOR_PAYMENT,
    IN_PROCESS,
    DELIVERED,
    COMPLETED,
}

pub struct Order {
    pub number: String,
    pub items: Vec<Item>,
    pub status: OrderStatus,
    pub payment_method: String,
}

pub struct ShoppingCart {}

impl ShoppingCart {
    /// Reports the order as delivered.
    pub fn complete_order(&self, order: Order) -> (r: String)
        ensures
            r@ == "Delivered order "@ + order.number@,
    {
        String::from_str("Delivered order ").concat(order.number.as_str())
    }
}

pub struct DeliveryService {}

impl DeliveryService {
    pub fn place_order_for_delivery(&self, _order: Order) -> (r: String)
        ensures
            r@ == "Delivering order..."@,
    {
        String::from_str("Delivering order...")
    }
}

pub struct PaymentGateway {}

impl PaymentGateway {
    pub fn pay_order(&self, order: Order, transaction_id: String) -> (r: String)
        ensures
            r@ == "Processing payment of "@ + order.number@ + " with "@ + transaction_id@,
    {
        String::from_str("Processing payment of ").concat(order.number.as_str()).concat(
            " with ",
        ).concat(transaction_id.as_str())
    }
}

pub struct InventoryManagement {}

impl InventoryManagement {
    /// The stock on hand; this toy inventory always reports eight.
    pub fn get_stock(&self, _item: String) -> (r: u32)
        ensures
            r == 8,
    {
        8
    }

    pub fn decrease_stock(&self, _item: String, _amount: u32) {
    }
}

/// The facade: wires the four services behind one checkout call.
pub struct CheckoutFacade {
    pub cart: ShoppingCart,
    pub payment_gateway: PaymentGateway,
    pub inventory: InventoryManagement,
    pub delivery: DeliveryService,
}

impl CheckoutFacade {
    /// Checkout never fails in this toy shop.
    pub fn checkout(&self, _user: User, _order: Order) -> (r: Result<bool, String>)
        ensures
            r matches Ok(b) && b,
    {
        Ok(true)
    }
}

} // verus!
