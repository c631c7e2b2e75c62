pub mod accept_ask;
pub mod admin;
pub mod ask_service;
pub mod buy_service;
pub mod create_service;
pub mod update_ask_price;
pub mod update_service_price;
pub mod withdraw_service;

pub use self::accept_ask::{accept_ask, AcceptAskEvent, AccpectAsk};
pub use self::admin::{initialize, update_royalty, Initialize, InitializeEvent, UpdateRoyalty};
pub use self::ask_service::{ask_service, AskService, AskServiceEvent};
pub use self::buy_service::{buy_service, BuyService, BuyServiceEvent};
pub use self::create_service::{
    create_service, initialize_mint_and_metadata, plan_mint, ListService, MintPlan, MintStep,
};
pub use self::update_ask_price::{update_ask_price, UpdateAskPrice, UpdateAskPriceEvent};
pub use self::update_service_price::{
    update_service_price, UpdateServicePrice, UpdateServicePriceEvent,
};
pub use self::withdraw_service::{withdraw_service, WithdrawNFTService};
