use two_sided_services_marketplace::instructions::{
    accept_ask, ask_service, update_ask_price, AcceptAskEvent, AccpectAsk, AskService,
    AskServiceEvent, UpdateAskPrice, UpdateAskPriceEvent,
};
use two_sided_services_marketplace::states::{AskAccount, ConfigAccount, ServiceAccount};
use two_sided_services_marketplace::{Party, ProgramErrorCode, Pubkey, Transfer};

fn ask_key(n: u8) -> Pubkey {
    Pubkey::new_from_array([n; 32])
}

fn open_ask(asker: u8, price: u64) -> AskAccount {
    AskAccount { bump: 250, asker: ask_key(asker), nft_mint: ask_key(100), ask_price: price, escrow: price }
}

fn ask_config(rate: u16) -> ConfigAccount {
    ConfigAccount { bump: 254, is_initialized: true, admin: ask_key(9), royalty_fee_basis_points: rate }
}

fn asked_service(original: u8, current: u8) -> ServiceAccount {
    ServiceAccount {
        bump: 253,
        is_soulbound: false,
        original_vendor: ask_key(original),
        current_vendor: ask_key(current),
        nft_mint: ask_key(100),
        price: 1000,
        agreements: Vec::new(),
    }
}

#[test]
fn first_ask_escrows_the_price() {
    let mut ctx = AskService { asker: ask_key(3), nft_mint: ask_key(100), bump: 250, ask_account: None };
    let settlement = ask_service(&mut ctx, 800).unwrap();
    assert_eq!(
        settlement.transfers,
        vec![Transfer { from: Party::Wallet(ask_key(3)), to: Party::Escrow(ask_key(100)), amount: 800 }]
    );
    assert_eq!(
        settlement.event,
        AskServiceEvent { asker: ask_key(3), nft_mint: ask_key(100), ask_price: 800 }
    );
    assert_eq!(
        ctx,
        AskService {
            asker: ask_key(3),
            nft_mint: ask_key(100),
            bump: 250,
            ask_account: Some(AskAccount {
                bump: 250,
                asker: ask_key(3),
                nft_mint: ask_key(100),
                ask_price: 800,
                escrow: 800,
            }),
        }
    );
}

#[test]
fn first_ask_of_nothing_moves_nothing() {
    let mut ctx = AskService { asker: ask_key(3), nft_mint: ask_key(100), bump: 250, ask_account: None };
    let settlement = ask_service(&mut ctx, 0).unwrap();
    assert!(settlement.transfers.is_empty());
    assert_eq!(ctx.ask_account, Some(open_ask(3, 0)));
}

#[test]
fn ask_again_by_the_asker_is_a_reprice() {
    let mut ctx = AskService {
        asker: ask_key(3),
        nft_mint: ask_key(100),
        bump: 1,
        ask_account: Some(open_ask(3, 500)),
    };
    let settlement = ask_service(&mut ctx, 700).unwrap();
    assert_eq!(
        settlement.transfers,
        vec![Transfer { from: Party::Wallet(ask_key(3)), to: Party::Escrow(ask_key(100)), amount: 200 }]
    );
    assert_eq!(ctx.ask_account, Some(open_ask(3, 700)));

    let settlement = ask_service(&mut ctx, 100).unwrap();
    assert_eq!(
        settlement.transfers,
        vec![Transfer { from: Party::Escrow(ask_key(100)), to: Party::Wallet(ask_key(3)), amount: 600 }]
    );
    assert_eq!(ctx.ask_account, Some(open_ask(3, 100)));

    let settlement = ask_service(&mut ctx, 100).unwrap();
    assert!(settlement.transfers.is_empty());
    assert_eq!(ctx.ask_account, Some(open_ask(3, 100)));
}

#[test]
fn ask_on_the_open_ask_of_another_is_refused() {
    let mut ctx = AskService {
        asker: ask_key(4),
        nft_mint: ask_key(100),
        bump: 250,
        ask_account: Some(open_ask(3, 500)),
    };
    let before = ctx;
    assert_eq!(ask_service(&mut ctx, 900), Err(ProgramErrorCode::Unauthorized));
    assert_eq!(ctx, before);
}

#[test]
fn ask_with_the_ask_of_another_asset_is_refused() {
    let mut ctx = AskService {
        asker: ask_key(3),
        nft_mint: ask_key(101),
        bump: 250,
        ask_account: Some(open_ask(3, 500)),
    };
    let before = ctx;
    assert_eq!(ask_service(&mut ctx, 900), Err(ProgramErrorCode::InvalidNftMint));
    assert_eq!(ctx, before);
}

#[test]
fn ask_on_an_ask_with_other_escrow_is_refused() {
    let mut short = open_ask(3, 500);
    short.escrow = 499;
    let mut ctx = AskService { asker: ask_key(3), nft_mint: ask_key(100), bump: 250, ask_account: Some(short) };
    let before = ctx;
    assert_eq!(ask_service(&mut ctx, 900), Err(ProgramErrorCode::Overflow));
    assert_eq!(ctx, before);
}

#[test]
fn reprice_up_pays_the_difference_in() {
    let mut ctx = UpdateAskPrice { asker: ask_key(3), ask_account: Some(open_ask(3, 500)) };
    let settlement = update_ask_price(&mut ctx, 700).unwrap();
    assert_eq!(
        settlement.transfers,
        vec![Transfer { from: Party::Wallet(ask_key(3)), to: Party::Escrow(ask_key(100)), amount: 200 }]
    );
    assert_eq!(
        settlement.event,
        UpdateAskPriceEvent {
            asker: ask_key(3),
            nft_mint: ask_key(100),
            old_ask_price: 500,
            new_ask_price: 700,
        }
    );
    assert_eq!(ctx, UpdateAskPrice { asker: ask_key(3), ask_account: Some(open_ask(3, 700)) });
}

#[test]
fn reprice_down_pays_the_difference_back() {
    let mut ctx = UpdateAskPrice { asker: ask_key(3), ask_account: Some(open_ask(3, 700)) };
    let settlement = update_ask_price(&mut ctx, 300).unwrap();
    assert_eq!(
        settlement.transfers,
        vec![Transfer { from: Party::Escrow(ask_key(100)), to: Party::Wallet(ask_key(3)), amount: 400 }]
    );
    assert_eq!(ctx.ask_account, Some(open_ask(3, 300)));
}

#[test]
fn reprice_to_the_same_price_moves_nothing() {
    let mut ctx = UpdateAskPrice { asker: ask_key(3), ask_account: Some(open_ask(3, 700)) };
    let settlement = update_ask_price(&mut ctx, 700).unwrap();
    assert!(settlement.transfers.is_empty());
    assert_eq!(
        settlement.event,
        UpdateAskPriceEvent {
            asker: ask_key(3),
            nft_mint: ask_key(100),
            old_ask_price: 700,
            new_ask_price: 700,
        }
    );
    assert_eq!(ctx.ask_account, Some(open_ask(3, 700)));
}

#[test]
fn reprice_over_the_whole_range() {
    let mut ctx = UpdateAskPrice { asker: ask_key(3), ask_account: Some(open_ask(3, 0)) };
    let settlement = update_ask_price(&mut ctx, u64::MAX).unwrap();
    assert_eq!(settlement.transfers[0].amount, u64::MAX);
    assert_eq!(ctx.ask_account.unwrap().escrow, u64::MAX);
    let settlement = update_ask_price(&mut ctx, 0).unwrap();
    assert_eq!(
        settlement.transfers,
        vec![Transfer { from: Party::Escrow(ask_key(100)), to: Party::Wallet(ask_key(3)), amount: u64::MAX }]
    );
    assert_eq!(ctx.ask_account, Some(open_ask(3, 0)));
}

#[test]
fn escrow_is_the_price_after_every_reprice() {
    let prices: [u64; 7] = [500, 700, 300, 300, 0, u64::MAX, 1];
    let mut ctx = UpdateAskPrice { asker: ask_key(3), ask_account: Some(open_ask(3, 10)) };
    let mut held: i128 = 10;
    for price in prices {
        let settlement = update_ask_price(&mut ctx, price).unwrap();
        for transfer in settlement.transfers.iter() {
            if transfer.to == Party::Escrow(ask_key(100)) {
                held += transfer.amount as i128;
            }
            if transfer.from == Party::Escrow(ask_key(100)) {
                held -= transfer.amount as i128;
            }
        }
        assert_eq!(ctx.ask_account.unwrap().ask_price, price);
        assert_eq!(ctx.ask_account.unwrap().escrow, price);
        assert_eq!(held, price as i128);
    }
}

#[test]
fn reprice_by_another_is_refused() {
    let mut ctx = UpdateAskPrice { asker: ask_key(4), ask_account: Some(open_ask(3, 500)) };
    let before = ctx;
    assert_eq!(update_ask_price(&mut ctx, 1), Err(ProgramErrorCode::Unauthorized));
    assert_eq!(ctx, before);
}

#[test]
fn reprice_without_an_open_ask_is_refused() {
    let mut ctx = UpdateAskPrice { asker: ask_key(3), ask_account: None };
    assert_eq!(update_ask_price(&mut ctx, 1), Err(ProgramErrorCode::Unauthorized));
    assert_eq!(ctx, UpdateAskPrice { asker: ask_key(3), ask_account: None });
}

#[test]
fn reprice_of_an_ask_with_other_escrow_is_refused() {
    let mut over = open_ask(3, 500);
    over.escrow = u64::MAX;
    let mut ctx = UpdateAskPrice { asker: ask_key(3), ask_account: Some(over) };
    let before = ctx;
    assert_eq!(update_ask_price(&mut ctx, 600), Err(ProgramErrorCode::Overflow));
    assert_eq!(ctx, before);
    assert_eq!(update_ask_price(&mut ctx, 500), Err(ProgramErrorCode::Overflow));
    let mut short = open_ask(3, 500);
    short.escrow = 100;
    let mut ctx = UpdateAskPrice { asker: ask_key(3), ask_account: Some(short) };
    assert_eq!(update_ask_price(&mut ctx, 300), Err(ProgramErrorCode::Overflow));
    assert_eq!(update_ask_price(&mut ctx, 100), Err(ProgramErrorCode::Overflow));
    assert_eq!(ctx.ask_account, Some(short));
}

#[test]
fn accept_pays_royalty_and_rest_out_of_escrow() {
    let mut ctx = AccpectAsk {
        vendor: ask_key(2),
        original_vendor: ask_key(1),
        config_account: ask_config(500),
        ask_account: Some(open_ask(3, 800)),
        service_account: asked_service(1, 2),
    };
    let settlement = accept_ask(&mut ctx).unwrap();
    assert_eq!(
        settlement.transfers,
        vec![
            Transfer { from: Party::Escrow(ask_key(100)), to: Party::Wallet(ask_key(1)), amount: 40 },
            Transfer { from: Party::Escrow(ask_key(100)), to: Party::Wallet(ask_key(2)), amount: 760 },
        ]
    );
    assert_eq!(
        settlement.event,
        AcceptAskEvent {
            vendor: ask_key(2),
            asker: ask_key(3),
            original_vendor: ask_key(1),
            nft_mint: ask_key(100),
            ask_price: 800,
            royalty_amount: 40,
            remaining_amount: 760,
        }
    );
    assert_eq!(ctx.ask_account, None);
    assert_eq!(ctx.service_account, asked_service(1, 3));
}

#[test]
fn accept_by_the_original_vendor_pays_no_royalty() {
    let mut ctx = AccpectAsk {
        vendor: ask_key(1),
        original_vendor: ask_key(1),
        config_account: ask_config(500),
        ask_account: Some(open_ask(3, 800)),
        service_account: asked_service(1, 1),
    };
    let settlement = accept_ask(&mut ctx).unwrap();
    assert_eq!(
        settlement.transfers,
        vec![Transfer { from: Party::Escrow(ask_key(100)), to: Party::Wallet(ask_key(1)), amount: 800 }]
    );
    assert_eq!(settlement.event.royalty_amount, 0);
    assert_eq!(settlement.event.remaining_amount, 800);
    assert_eq!(ctx.ask_account, None);
    assert_eq!(ctx.service_account.current_vendor, ask_key(3));
}

#[test]
fn accept_empties_the_escrow() {
    let rates: [u16; 4] = [0, 333, 5000, 10000];
    let prices: [u64; 4] = [0, 1, 800, u64::MAX];
    for rate in rates {
        for price in prices {
            let mut ctx = AccpectAsk {
                vendor: ask_key(2),
                original_vendor: ask_key(1),
                config_account: ask_config(rate),
                ask_account: Some(open_ask(3, price)),
                service_account: asked_service(1, 2),
            };
            let settlement = accept_ask(&mut ctx).unwrap();
            let mut paid: u128 = 0;
            for transfer in settlement.transfers.iter() {
                assert_eq!(transfer.from, Party::Escrow(ask_key(100)));
                paid += transfer.amount as u128;
            }
            assert_eq!(paid, price as u128);
            assert_eq!(ctx.ask_account, None);
        }
    }
}

#[test]
fn accept_twice_is_refused() {
    let mut ctx = AccpectAsk {
        vendor: ask_key(2),
        original_vendor: ask_key(1),
        config_account: ask_config(500),
        ask_account: Some(open_ask(2, 800)),
        service_account: asked_service(1, 2),
    };
    accept_ask(&mut ctx).unwrap();
    let before = ctx.clone();
    assert_eq!(accept_ask(&mut ctx), Err(ProgramErrorCode::InvalidNftMint));
    assert_eq!(ctx, before);
}

#[test]
fn accept_by_another_than_the_current_vendor_is_refused() {
    let mut ctx = AccpectAsk {
        vendor: ask_key(3),
        original_vendor: ask_key(1),
        config_account: ask_config(500),
        ask_account: Some(open_ask(3, 800)),
        service_account: asked_service(1, 2),
    };
    let before = ctx.clone();
    assert_eq!(accept_ask(&mut ctx), Err(ProgramErrorCode::InvalidCurrentVendor));
    assert_eq!(ctx, before);
}

#[test]
fn accept_with_wrong_original_vendor_is_refused() {
    let mut ctx = AccpectAsk {
        vendor: ask_key(2),
        original_vendor: ask_key(2),
        config_account: ask_config(500),
        ask_account: Some(open_ask(3, 800)),
        service_account: asked_service(1, 2),
    };
    let before = ctx.clone();
    assert_eq!(accept_ask(&mut ctx), Err(ProgramErrorCode::InvalidOriginalVendor));
    assert_eq!(ctx, before);
}

#[test]
fn accept_of_an_ask_for_another_asset_is_refused() {
    let mut other = open_ask(3, 800);
    other.nft_mint = ask_key(101);
    let mut ctx = AccpectAsk {
        vendor: ask_key(2),
        original_vendor: ask_key(1),
        config_account: ask_config(500),
        ask_account: Some(other),
        service_account: asked_service(1, 2),
    };
    let before = ctx.clone();
    assert_eq!(accept_ask(&mut ctx), Err(ProgramErrorCode::InvalidNftMint));
    assert_eq!(ctx, before);
}

#[test]
fn accept_without_an_open_ask_is_refused() {
    let mut ctx = AccpectAsk {
        vendor: ask_key(2),
        original_vendor: ask_key(1),
        config_account: ask_config(500),
        ask_account: None,
        service_account: asked_service(1, 2),
    };
    let before = ctx.clone();
    assert_eq!(accept_ask(&mut ctx), Err(ProgramErrorCode::InvalidNftMint));
    assert_eq!(ctx, before);
}

#[test]
fn accept_at_rate_out_of_range_overflows_and_changes_nothing() {
    let mut ctx = AccpectAsk {
        vendor: ask_key(2),
        original_vendor: ask_key(1),
        config_account: ask_config(20000),
        ask_account: Some(open_ask(3, 800)),
        service_account: asked_service(1, 2),
    };
    let before = ctx.clone();
    assert_eq!(accept_ask(&mut ctx), Err(ProgramErrorCode::Overflow));
    assert_eq!(ctx, before);
}

#[test]
fn accept_of_an_ask_with_other_escrow_is_refused() {
    let mut short = open_ask(3, 800);
    short.escrow = 799;
    let mut over = open_ask(3, 800);
    over.escrow = 801;
    for ask in [short, over] {
        let mut ctx = AccpectAsk {
            vendor: ask_key(2),
            original_vendor: ask_key(1),
            config_account: ask_config(500),
            ask_account: Some(ask),
            service_account: asked_service(1, 2),
        };
        let before = ctx.clone();
        assert_eq!(accept_ask(&mut ctx), Err(ProgramErrorCode::Overflow));
        assert_eq!(ctx, before);
    }
}

#[test]
fn new_ask_after_acceptance_escrows_in_full() {
    let mut ctx = AccpectAsk {
        vendor: ask_key(2),
        original_vendor: ask_key(1),
        config_account: ask_config(500),
        ask_account: Some(open_ask(3, 800)),
        service_account: asked_service(1, 2),
    };
    accept_ask(&mut ctx).unwrap();
    let mut next = AskService {
        asker: ask_key(4),
        nft_mint: ask_key(100),
        bump: 250,
        ask_account: ctx.ask_account,
    };
    let settlement = ask_service(&mut next, 800).unwrap();
    assert_eq!(
        settlement.transfers,
        vec![Transfer { from: Party::Wallet(ask_key(4)), to: Party::Escrow(ask_key(100)), amount: 800 }]
    );
    assert_eq!(next.ask_account, Some(open_ask(4, 800)));
}
