use ecommerce::errors::{AuthError, CustomError, DbError};
use ecommerce::order::{
    apply_status_update, create_order, fetch_all_orders, get_order, insertion_outcome,
    list_orders, update_status, updation_outcome, Order, OrderStatus, StatusUpdate,
};
use ecommerce::session_state::{SessionStatus, TypedSession};

fn order(id: u128, customer_id: u128, product_id: u128, status: OrderStatus) -> Order {
    Order { id, customer_id, product_id, status, created_at: 1_700_000_000 }
}

#[test]
fn created_orders_are_pending_and_owned_by_the_caller() {
    let s = TypedSession::restored(Some(11), None);
    let o = create_order(&s, 100, 200, 42).unwrap();
    assert_eq!(o, order_at(100, 11, 200, OrderStatus::Pending, 42));
    let none = TypedSession::restored(None, Some(1));
    let r = create_order(&none, 100, 200, 42);
    assert!(matches!(r, Err(CustomError::AuthenticationError(AuthError::SessionMissing))));
}

fn order_at(id: u128, c: u128, p: u128, status: OrderStatus, at: i64) -> Order {
    Order { id, customer_id: c, product_id: p, status, created_at: at }
}

#[test]
fn row_counts_are_checked() {
    assert!(insertion_outcome(1).is_ok());
    assert!(matches!(insertion_outcome(0), Err(CustomError::DatabaseError(DbError::InsertionError(_)))));
    assert!(updation_outcome(3).is_ok());
    assert!(matches!(updation_outcome(0), Err(CustomError::DatabaseError(DbError::UpdationError(_)))));
}

#[test]
fn customers_see_only_their_own_orders() {
    let s = TypedSession::restored(Some(11), None);
    let mine = order(100, 11, 200, OrderStatus::Shipped);
    let d = get_order(&s, 100, Some(mine)).unwrap();
    assert_eq!(d.product_id, 200);
    assert_eq!(d.customer_id, 11);
    assert_eq!(d.status, OrderStatus::Shipped);
    let theirs = order(101, 12, 200, OrderStatus::Pending);
    let r = get_order(&s, 101, Some(theirs));
    assert!(matches!(r, Err(CustomError::DatabaseError(DbError::QueryError(_)))));
    assert!(matches!(get_order(&s, 102, None), Err(CustomError::DatabaseError(DbError::QueryError(_)))));
}

#[test]
fn listing_keeps_the_callers_orders_in_order() {
    let s = TypedSession::restored(Some(11), None);
    let rows = vec![
        order(1, 11, 201, OrderStatus::Pending),
        order(2, 12, 202, OrderStatus::Pending),
        order(3, 11, 203, OrderStatus::Delivered),
    ];
    assert_eq!(list_orders(&s, &rows).unwrap(), vec![(1, 201), (3, 203)]);
    assert_eq!(list_orders(&s, &vec![]).unwrap(), vec![]);
    assert!(list_orders(&TypedSession::new(), &rows).is_err());
}

#[test]
fn status_changes_need_an_admin_session() {
    let mut s = TypedSession::restored(Some(11), None);
    let before = s;
    let r = update_status(&mut s, 100, OrderStatus::Shipped);
    assert!(matches!(r, Err(CustomError::AuthenticationError(AuthError::SessionMissing))));
    assert_eq!(s, before);
    let mut a = TypedSession::restored(None, Some(1));
    let u = update_status(&mut a, 100, OrderStatus::Shipped).unwrap();
    assert_eq!(u, StatusUpdate { order_id: 100, status: OrderStatus::Shipped });
    assert_eq!(a.status, SessionStatus::Renewed);
}

#[test]
fn any_status_may_be_set_directly() {
    let o = order(100, 11, 200, OrderStatus::Delivered);
    let back = apply_status_update(o, StatusUpdate { order_id: 100, status: OrderStatus::Pending });
    assert_eq!(back.status, OrderStatus::Pending);
    assert_eq!(back.id, 100);
    let other = apply_status_update(o, StatusUpdate { order_id: 5, status: OrderStatus::Pending });
    assert_eq!(other, o);
}

#[test]
fn admins_fetch_every_order() {
    let rows = vec![order(1, 11, 201, OrderStatus::Pending), order(2, 12, 202, OrderStatus::Shipped)];
    let a = TypedSession::restored(None, Some(1));
    assert_eq!(fetch_all_orders(&a, rows.clone()).unwrap(), rows);
    let c = TypedSession::restored(Some(11), None);
    assert!(fetch_all_orders(&c, rows).is_err());
}

#[test]
fn status_names() {
    assert_eq!(OrderStatus::from_name("Shipped"), Some(OrderStatus::Shipped));
    assert_eq!(OrderStatus::from_name("Pending"), Some(OrderStatus::Pending));
    assert_eq!(OrderStatus::from_name("Delivered"), Some(OrderStatus::Delivered));
    assert_eq!(OrderStatus::from_name("shipped"), None);
    assert_eq!(OrderStatus::Delivered.name(), "Delivered");
}
