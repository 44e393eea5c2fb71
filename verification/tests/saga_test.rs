use fmodel_rust::saga::{ActionComputation, Saga};
use fmodel_rust::{React, ReactFunction, Sum};

#[derive(Debug, Clone, PartialEq)]
pub enum OrderEvent {
    Created(OrderCreatedEvent),
    Updated(OrderUpdatedEvent),
    Cancelled(OrderCancelledEvent),
}

#[derive(Debug, Clone, PartialEq)]
pub struct OrderCreatedEvent {
    pub order_id: u32,
    pub customer_name: String,
    pub items: Vec<String>,
}

#[derive(Debug, Clone, PartialEq)]
pub struct OrderUpdatedEvent {
    pub order_id: u32,
    pub updated_items: Vec<String>,
}

#[derive(Debug, Clone, PartialEq)]
pub struct OrderCancelledEvent {
    pub order_id: u32,
}

impl OrderEvent {
    pub fn id(&self) -> u32 {
        match self {
            OrderEvent::Created(e) => e.order_id,
            OrderEvent::Updated(e) => e.order_id,
            OrderEvent::Cancelled(e) => e.order_id,
        }
    }
}

#[derive(Debug, PartialEq)]
pub enum ShipmentCommand {
    Create(CreateShipmentCommand),
}

#[derive(Debug, PartialEq)]
pub struct CreateShipmentCommand {
    pub shipment_id: u32,
    pub order_id: u32,
    pub customer_name: String,
    pub items: Vec<String>,
}

#[derive(Debug, PartialEq)]
pub enum NotificationCommand {
    NotifyCustomer(NotifyCustomerCommand),
}

#[derive(Debug, PartialEq)]
pub struct NotifyCustomerCommand {
    pub order_id: u32,
}

fn shipment_saga<'a>() -> Saga<'a, OrderEvent, ShipmentCommand> {
    Saga {
        react: Box::new(|event: &OrderEvent| match event {
            OrderEvent::Created(created) => {
                vec![ShipmentCommand::Create(CreateShipmentCommand {
                    shipment_id: created.order_id,
                    order_id: created.order_id,
                    customer_name: created.customer_name.to_owned(),
                    items: created.items.to_owned(),
                })]
            }
            OrderEvent::Updated(_) => vec![],
            OrderEvent::Cancelled(_) => vec![],
        }),
    }
}

fn notification_saga<'a>() -> Saga<'a, OrderEvent, NotificationCommand> {
    Saga::new(|event: &OrderEvent| {
        vec![NotificationCommand::NotifyCustomer(NotifyCustomerCommand {
            order_id: event.id(),
        })]
    })
}

fn order_created() -> OrderEvent {
    OrderEvent::Created(OrderCreatedEvent {
        order_id: 1,
        customer_name: "John Doe".to_string(),
        items: vec!["Item 1".to_string(), "Item 2".to_string()],
    })
}

fn order_updated() -> OrderEvent {
    OrderEvent::Updated(OrderUpdatedEvent {
        order_id: 1,
        updated_items: vec!["Item 3".to_string()],
    })
}

fn order_cancelled() -> OrderEvent {
    OrderEvent::Cancelled(OrderCancelledEvent { order_id: 1 })
}

fn create_shipment() -> ShipmentCommand {
    ShipmentCommand::Create(CreateShipmentCommand {
        shipment_id: 1,
        order_id: 1,
        customer_name: "John Doe".to_string(),
        items: vec!["Item 1".to_string(), "Item 2".to_string()],
    })
}

fn notify_customer() -> NotificationCommand {
    NotificationCommand::NotifyCustomer(NotifyCustomerCommand { order_id: 1 })
}

fn shared_between_threads<T: Send + Sync>(_value: &T) -> bool {
    true
}

#[test]
fn order_created_gives_one_shipment() {
    let saga = shipment_saga();
    let actions = saga.compute_new_actions(&order_created());
    assert_eq!(actions, vec![create_shipment()]);
}

#[test]
fn order_updated_gives_no_action() {
    let saga = shipment_saga();
    assert_eq!(saga.compute_new_actions(&order_updated()), vec![]);
}

#[test]
fn order_cancelled_gives_no_action() {
    let saga = shipment_saga();
    assert_eq!(saga.compute_new_actions(&order_cancelled()), vec![]);
}

#[test]
fn a_saga_can_be_run_again_with_the_same_result() {
    let saga = shipment_saga();
    let first = saga.compute_new_actions(&order_created());
    let second = saga.compute_new_actions(&order_created());
    assert_eq!(first, second);
    assert_eq!(first.len(), 1);
}

#[test]
fn the_reaction_function_can_be_run_directly() {
    let saga = shipment_saga();
    let react: &ReactFunction<OrderEvent, ShipmentCommand> = &saga.react;
    assert_eq!(react.react(&order_created()), vec![create_shipment()]);
    assert_eq!(react.react(&order_cancelled()), vec![]);
}

#[test]
fn merged_sagas_ship_then_notify() {
    let merged = shipment_saga().merge(notification_saga());
    let actions = merged.compute_new_actions(&order_created());
    assert_eq!(
        actions,
        vec![Sum::Second(create_shipment()), Sum::First(notify_customer())]
    );
}

#[test]
fn merged_sagas_only_notify_on_update() {
    let merged = shipment_saga().merge(notification_saga());
    let actions = merged.compute_new_actions(&order_updated());
    assert_eq!(actions, vec![Sum::First(notify_customer())]);
}

#[test]
fn merged_the_other_way_round_notifies_then_ships() {
    let merged = notification_saga().merge(shipment_saga());
    let actions = merged.compute_new_actions(&order_created());
    assert_eq!(
        actions,
        vec![Sum::Second(notify_customer()), Sum::First(create_shipment())]
    );
}

#[test]
fn combined_sagas_react_by_the_tag_of_the_event() {
    let combined = shipment_saga().combine(notification_saga());
    let shipped = combined.compute_new_actions(&Sum::First(order_created()));
    assert_eq!(shipped, vec![Sum::Second(create_shipment())]);
    let notified = combined.compute_new_actions(&Sum::Second(order_created()));
    assert_eq!(notified, vec![Sum::First(notify_customer())]);
    let nothing = combined.compute_new_actions(&Sum::First(order_cancelled()));
    assert_eq!(nothing, vec![]);
}

#[test]
fn a_saga_over_order_ids_is_reused_for_events() {
    let by_id: Saga<u32, NotificationCommand> = Saga::new(|order_id: &u32| {
        vec![NotificationCommand::NotifyCustomer(NotifyCustomerCommand {
            order_id: *order_id,
        })]
    });
    let id_of = |event: &OrderEvent| event.id();
    let direct = by_id.compute_new_actions(&id_of(&order_created()));
    let by_event = by_id.map_action_result(&id_of);
    assert_eq!(by_event.compute_new_actions(&order_created()), direct);
    assert_eq!(
        by_event.compute_new_actions(&order_cancelled()),
        vec![notify_customer()]
    );
}

#[test]
fn shipments_are_mapped_to_their_order_ids() {
    let order_id_of = |command: &ShipmentCommand| match command {
        ShipmentCommand::Create(create) => create.order_id,
    };
    let ids = shipment_saga().map_action(&order_id_of);
    assert_eq!(ids.compute_new_actions(&order_created()), vec![1]);
    assert_eq!(ids.compute_new_actions(&order_updated()), vec![]);
}

#[test]
fn a_sum_holds_one_of_two_values() {
    let first: Sum<u32, String> = Sum::First(7);
    let second: Sum<u32, String> = Sum::Second("seven".to_string());
    assert!(matches!(first, Sum::First(7)));
    assert!(matches!(&second, Sum::Second(text) if text == "seven"));
    assert_ne!(first, second);
    assert_eq!(first, Sum::First(7));
    assert_ne!(first, Sum::First(8));
    assert_eq!(format!("{:?}", first), "First(7)");
}

#[test]
fn a_clone_of_a_sum_is_the_same_variant_of_the_same_value() {
    let first: Sum<String, u32> = Sum::First("one".to_string());
    let second: Sum<String, u32> = Sum::Second(2);
    assert_eq!(first.clone(), Sum::First("one".to_string()));
    assert_eq!(second.clone(), Sum::Second(2));
    assert_ne!(first.clone(), second.clone());
}

#[test]
fn sagas_can_be_shared_between_threads() {
    let saga = shipment_saga();
    assert!(shared_between_threads(&saga));
    let merged = saga.merge(notification_saga());
    assert!(shared_between_threads(&merged));
}
