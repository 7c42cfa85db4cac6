use crate::errors::{AuthError, CustomError, DbError};
use crate::session_state::{SessionStatus, TypedSession};
use vstd::prelude::*;

verus! {

/// Where an order stands. Admins may set any of the three directly.
#[derive(PartialEq, Eq, Structural, Clone, Copy, Debug)]
pub enum OrderStatus {
    Pending,
    Shipped,
    Delivered,
}

impl OrderStatus {
    /// The status that a request names, by its name as written on the wire.
    pub fn from_name(s: &str) -> (r: Option<OrderStatus>)
        ensures
            r == (if s@ == "Pending"@ {
                Some(OrderStatus::Pending)
            } else if s@ == "Shipped"@ {
                Some(OrderStatus::Shipped)
            } else if s@ == "Delivered"@ {
                Some(OrderStatus::Delivered)
            } else {
                None
            }),
    {
        if crate::auth::same_text(s, "Pending") {
            Some(OrderStatus::Pending)
        } else if crate::auth::same_text(s, "Shipped") {
            Some(OrderStatus::Shipped)
        } else if crate::auth::same_text(s, "Delivered") {
            Some(OrderStatus::Delivered)
        } else {
            None
        }
    }

    /// The name of the status as written on the wire.
    pub fn name(&self) -> (r: &'static str)
        ensures
            r@ == (match *self {
                OrderStatus::Pending => "Pending"@,
                OrderStatus::Shipped => "Shipped"@,
                OrderStatus::Delivered => "Delivered"@,
            }),
    {
        match self {
            OrderStatus::Pending => "Pending",
            OrderStatus::Shipped => "Shipped",
            OrderStatus::Delivered => "Delivered",
        }
    }
}

/// An order as it is stored.
#[derive(PartialEq, Eq, Structural, Clone, Copy, Debug)]
pub struct Order {
    pub id: u128,
    pub customer_id: u128,
    pub product_id: u128,
    pub status: OrderStatus,
    /// Seconds since the epoch.
    pub created_at: i64,
}

/// What a customer sees of one of their orders.
#[derive(PartialEq, Eq, Structural, Clone, Copy, Debug)]
pub struct OrderDetails {
    pub product_id: u128,
    pub customer_id: u128,
    pub status: OrderStatus,
}

/// A status change that an admin has been allowed to make.
#[derive(PartialEq, Eq, Structural, Clone, Copy, Debug)]
pub struct StatusUpdate {
    pub order_id: u128,
    pub status: OrderStatus,
}

pub open spec fn session_missing() -> CustomError {
    CustomError::AuthenticationError(AuthError::SessionMissing)
}

/// The order that a customer's request creates, or the refusal.
pub open spec fn creation_verdict(
    session: TypedSession,
    order_id: u128,
    product_id: u128,
    created_at: i64,
) -> Result<Order, CustomError> {
    match session.customer {
        None => Err(session_missing()),
        Some(c) => Ok(
            Order {
                id: order_id,
                customer_id: c,
                product_id,
                status: OrderStatus::Pending,
                created_at,
            },
        ),
    }
}

/// A new order for the customer of the session, in state `Pending`.
pub fn create_order(session: &TypedSession, order_id: u128, product_id: u128, created_at: i64) -> (r:
    Result<Order, CustomError>)
    ensures
        r == creation_verdict(*session, order_id, product_id, created_at),
        r matches Ok(o) ==> o.status == OrderStatus::Pending,
{
    match session.get_user_id() {
        None => Err(CustomError::AuthenticationError(AuthError::SessionMissing)),
        Some(c) => Ok(
            Order {
                id: order_id,
                customer_id: c,
                product_id,
                status: OrderStatus::Pending,
                created_at,
            },
        ),
    }
}

/// An insertion must have written a row.
pub fn insertion_outcome(rows_affected: usize) -> (r: Result<(), CustomError>)
    ensures
        r is Ok <==> rows_affected > 0,
        r matches Err(e) ==> e matches CustomError::DatabaseError(DbError::InsertionError(_)),
{
    if rows_affected == 0 {
        Err(CustomError::DatabaseError(DbError::InsertionError(String::from_str("no row was inserted"))))
    } else {
        Ok(())
    }
}

/// An update must have written a row.
pub fn updation_outcome(rows_affected: usize) -> (r: Result<(), CustomError>)
    ensures
        r is Ok <==> rows_affected > 0,
        r matches Err(e) ==> e matches CustomError::DatabaseError(DbError::UpdationError(_)),
{
    if rows_affected == 0 {
        Err(CustomError::DatabaseError(DbError::UpdationError(String::from_str("no row was updated"))))
    } else {
        Ok(())
    }
}

/// The order that a customer may see: the stored row with that identifier,
/// if there is one and it is theirs.
pub open spec fn visible_order(customer: u128, order_id: u128, found: Option<Order>) -> Option<
    OrderDetails,
> {
    match found {
        Some(o) => if o.id == order_id && o.customer_id == customer {
            Some(
                OrderDetails {
                    product_id: o.product_id,
                    customer_id: o.customer_id,
                    status: o.status,
                },
            )
        } else {
            None
        },
        None => None,
    }
}

/// One order of the customer of the session. `found` is the stored row with
/// identifier `order_id`, if there is one; an order of someone else is
/// reported as a missing one.
pub fn get_order(session: &TypedSession, order_id: u128, found: Option<Order>) -> (r: Result<
    OrderDetails,
    CustomError,
>)
    ensures
        match session.customer {
            None => r == Err::<OrderDetails, CustomError>(session_missing()),
            Some(c) => match visible_order(c, order_id, found) {
                Some(d) => r == Ok::<OrderDetails, CustomError>(d),
                None => r matches Err(CustomError::DatabaseError(DbError::QueryError(_))),
            },
        },
{
    match session.get_user_id() {
        None => Err(CustomError::AuthenticationError(AuthError::SessionMissing)),
        Some(c) => match found {
            Some(o) => if o.id == order_id && o.customer_id == c {
                Ok(
                    OrderDetails {
                        product_id: o.product_id,
                        customer_id: o.customer_id,
                        status: o.status,
                    },
                )
            } else {
                Err(CustomError::DatabaseError(DbError::QueryError(String::from_str("order not found"))))
            },
            None => Err(CustomError::DatabaseError(DbError::QueryError(String::from_str("order not found")))),
        },
    }
}

/// The identifier and product of each order of `customer`, in stored order.
pub open spec fn owned_refs(rows: Seq<Order>, customer: u128) -> Seq<(u128, u128)>
    decreases rows.len(),
{
    if rows.len() == 0 {
        Seq::empty()
    } else {
        let earlier = owned_refs(rows.drop_last(), customer);
        let o = rows.last();
        if o.customer_id == customer {
            earlier.push((o.id, o.product_id))
        } else {
            earlier
        }
    }
}

/// The orders of the customer of the session, each as identifier and product.
pub fn list_orders(session: &TypedSession, rows: &Vec<Order>) -> (r: Result<
    Vec<(u128, u128)>,
    CustomError,
>)
    ensures
        match session.customer {
            None => r == Err::<Vec<(u128, u128)>, CustomError>(session_missing()),
            Some(c) => r matches Ok(v) && v@ == owned_refs(rows@, c),
        },
{
    let c = match session.get_user_id() {
        None => { return Err(CustomError::AuthenticationError(AuthError::SessionMissing)); },
        Some(c) => c,
    };
    let mut out: Vec<(u128, u128)> = Vec::new();
    let mut i: usize = 0;
    while i < rows.len()
        invariant
            i <= rows@.len(),
            out@ == owned_refs(rows@.take(i as int), c),
        decreases rows@.len() - i,
    {
        let o = rows[i];
        assert(rows@.take(i + 1).drop_last() =~= rows@.take(i as int));
        assert(rows@.take(i + 1).last() == o);
        if o.customer_id == c {
            out.push((o.id, o.product_id));
        }
        i = i + 1;
    }
    assert(rows@.take(rows@.len() as int) =~= rows@);
    Ok(out)
}

/// What an admin's status change request gives: the change to make, or the
/// refusal when the session holds no admin.
pub open spec fn update_verdict(session: TypedSession, order_id: u128, status: OrderStatus) -> Result<
    StatusUpdate,
    CustomError,
> {
    match session.admin {
        None => Err(session_missing()),
        Some(_) => Ok(StatusUpdate { order_id, status }),
    }
}

/// Authorizes an admin's status change. A refusal leaves the session as it
/// was; an accepted change renews the session.
pub fn update_status(session: &mut TypedSession, order_id: u128, status: OrderStatus) -> (r: Result<
    StatusUpdate,
    CustomError,
>)
    ensures
        r == update_verdict(*old(session), order_id, status),
        r is Err ==> *final(session) == *old(session),
        r is Ok ==> final(session).customer == old(session).customer,
        r is Ok ==> final(session).admin == old(session).admin,
        r is Ok && old(session).status != SessionStatus::Purged ==> final(session).status
            == SessionStatus::Renewed,
{
    match session.get_admin_id() {
        None => Err(CustomError::AuthenticationError(AuthError::SessionMissing)),
        Some(_) => {
            session.admin_renew();
            Ok(StatusUpdate { order_id, status })
        },
    }
}

pub open spec fn applied(o: Order, u: StatusUpdate) -> Order {
    if o.id == u.order_id {
        Order { status: u.status, ..o }
    } else {
        o
    }
}

/// The stored order after a status change: the order it names takes the new
/// status, whatever the old one was; other orders are untouched.
pub fn apply_status_update(o: Order, u: StatusUpdate) -> (r: Order)
    ensures
        r == applied(o, u),
{
    if o.id == u.order_id {
        Order { status: u.status, ..o }
    } else {
        o
    }
}

/// Every order, for the admin of the session.
pub fn fetch_all_orders(session: &TypedSession, rows: Vec<Order>) -> (r: Result<
    Vec<Order>,
    CustomError,
>)
    ensures
        match session.admin {
            None => r == Err::<Vec<Order>, CustomError>(session_missing()),
            Some(_) => r matches Ok(v) && v@ == rows@,
        },
{
    match session.get_admin_id() {
        None => Err(CustomError::AuthenticationError(AuthError::SessionMissing)),
        Some(_) => Ok(rows),
    }
}

/// Every order starts `Pending`.
pub proof fn lemma_created_pending(
    session: TypedSession,
    order_id: u128,
    product_id: u128,
    created_at: i64,
)
    ensures
        creation_verdict(session, order_id, product_id, created_at) matches Ok(o) ==> o.status
            == OrderStatus::Pending,
{
}

/// A status that an admin set is the one the order's owner sees next.
pub proof fn lemma_status_change_visible(
    admin_session: TypedSession,
    order: Order,
    status: OrderStatus,
)
    requires
        admin_session.admin is Some,
    ensures
        update_verdict(admin_session, order.id, status) matches Ok(u) && visible_order(
            order.customer_id,
            order.id,
            Some(applied(order, u)),
        ) == Some(
            OrderDetails {
                product_id: order.product_id,
                customer_id: order.customer_id,
                status,
            },
        ),
{
}

/// Without an admin in the session a status change is refused, so no row
/// is written.
pub proof fn lemma_status_change_needs_admin(
    session: TypedSession,
    order_id: u128,
    status: OrderStatus,
)
    requires
        session.admin is None,
    ensures
        update_verdict(session, order_id, status) == Err::<StatusUpdate, CustomError>(
            session_missing(),
        ),
        crate::errors::status_of(session_missing()) == 401,
{
}

} // verus!
