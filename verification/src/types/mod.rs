//! Protocol value types: coded values, amounts, card and device data.

mod amount;
mod card;
mod coded;
pub mod device;

pub use amount::{zero_padded3, Amount, Currency};
pub use card::{AccountInfo, AccountType, CardRange, ShippingAddressUsage};
pub use coded::{
    AcsAuthMethod, ActionIndicator, AuthenticationMethod, AuthenticationType, ChallengeIndicator,
    ChallengeWindowSize, DeliveryTimeframe, DeviceChannel, Eci, MessageCategory, MessageVersion,
    PreOrderPurchaseIndicator, ReorderItemsIndicator, ResultsStatus, ShipIndicator,
    SuspiciousAccActivity, ThreeDsMethod, TransStatus, TransStatusReason,
};
pub use device::{BrowserInfo, DeviceRenderOptions, SdkInfo, UiType};
