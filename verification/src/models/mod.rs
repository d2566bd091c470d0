pub mod cargo;
pub mod document;
pub mod recipient;
pub mod sender;

pub use cargo::cargo_sums_fit;
pub use cargo::Cargo;
pub use cargo::CargoSplit;
pub use cargo::NovaDate;
pub use cargo::NovaOptionsSeat;
pub use cargo::NovaParcelWightStandarts;
pub use cargo::NovaPaymentMethod;
pub use cargo::NovaServiceType;
pub use cargo::NovaTime;
pub use document::NovaDeliveryDate;
pub use document::NovaDeliveryDateData;
pub use document::NovaDocumentPrice;
pub use document::NovaShipment;
pub use document::NovaShipmentCreated;
pub use document::NovaShipmentDelete;
pub use document::NovaStatusFetch;
pub use recipient::Address;
pub use recipient::Recipient;
pub use sender::Sender;
pub use sender::SenderContact;
