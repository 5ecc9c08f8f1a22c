//! Coordination hub for a distributed query/compute cluster: a registry of
//! connected worker handles and a broadcast protocol that fans catalog-refresh
//! events out to every registered worker.

pub mod coordinator;
pub mod event;
pub mod laws;

pub use coordinator::Coordinator;
pub use coordinator::Delivery;
pub use coordinator::DeliveryView;
pub use coordinator::WorkerHandle;
pub use event::Payload;
pub use event::RefreshEvent;
pub use event::RefreshEventView;
