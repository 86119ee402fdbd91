use deposit_token_to_user_ata::address::Address;
use deposit_token_to_user_ata::derivation::{derive_admin, derive_treasury, derive_vault};
use deposit_token_to_user_ata::errors::{CreationError, ErrorCode};
use deposit_token_to_user_ata::events::{AdminUpdated, ProgramInitialized, UserDepositAccountCreated};
use deposit_token_to_user_ata::instructions::admin_batch_transfer_to_treasury::{
    admin_batch_transfer_to_treasury, AccountHandle, AdminBatchTransferToTreasury,
};
use deposit_token_to_user_ata::instructions::admin_transfer_to_treasury::{
    admin_transfer_to_treasury, AdminTransferToTreasury,
};
use deposit_token_to_user_ata::instructions::create_user_deposit_account::{
    create_user_deposit_account, CreateAccountResult, CreateUserDepositAccount,
};
use deposit_token_to_user_ata::instructions::deposit_tokens::{deposit_tokens, DepositTokens};
use deposit_token_to_user_ata::instructions::get_admin_info::{get_admin_info, AdminInfo, GetAdminInfo};
use deposit_token_to_user_ata::instructions::get_treasury_info::{
    get_treasury_info, GetTreasuryInfo, TreasuryInfo,
};
use deposit_token_to_user_ata::instructions::get_user_deposit_info::{
    get_user_deposit_info, GetUserDepositInfo, UserDepositInfo,
};
use deposit_token_to_user_ata::instructions::create_user_deposit_account::decide_creation;
use deposit_token_to_user_ata::instructions::deposit_tokens::decide_deposit;
use deposit_token_to_user_ata::instructions::initialize::{decide_initialization, initialize, Initialize};
use deposit_token_to_user_ata::instructions::initialize_test::{initialize_test, InitializeTest};
use deposit_token_to_user_ata::instructions::update_admin::{update_admin, UpdateAdmin};
use deposit_token_to_user_ata::state::account::Account;
use deposit_token_to_user_ata::state::admin_state::AdminState;
use deposit_token_to_user_ata::state::token_account::TokenAccount;
use deposit_token_to_user_ata::state::treasury_state::TreasuryState;
use deposit_token_to_user_ata::state::user_pda::UserPDA;
use deposit_token_to_user_ata::transfer::TransferOrder;

fn addr(n: u8) -> Address {
    Address::new([n; 32])
}

fn program() -> Address {
    addr(7)
}

fn mint() -> Address {
    addr(20)
}

fn caller() -> Address {
    addr(10)
}

/// The token ledger of these tests: it holds the sub-accounts and makes the
/// transfers that it is ordered to make, on the authority of the owner.
#[derive(Clone)]
struct Ledger {
    accounts: Vec<Account<TokenAccount>>,
}

impl Ledger {
    fn open(&mut self, address: Address, owner: Address) -> Account<TokenAccount> {
        let account = Account::new(address, TokenAccount { mint: mint(), owner, amount: 0 });
        self.accounts.push(account.clone());
        account
    }

    fn fund(&mut self, address: Address, amount: u64) {
        self.find(address).data.amount += amount;
    }

    fn find(&mut self, address: Address) -> &mut Account<TokenAccount> {
        self.accounts.iter_mut().find(|account| account.address == address).unwrap()
    }

    fn read(&self, address: Address) -> Account<TokenAccount> {
        self.accounts.iter().find(|account| account.address == address).unwrap().clone()
    }

    fn balance(&self, address: Address) -> u64 {
        self.read(address).data.amount
    }

    fn transfer(&mut self, order: &TransferOrder) -> bool {
        let from = self.read(order.from);
        let to = self.read(order.to);
        if from.data.owner != order.authority || from.data.mint != to.data.mint {
            return false;
        }
        if from.data.amount < order.amount {
            return false;
        }
        self.find(order.from).data.amount -= order.amount;
        self.find(order.to).data.amount += order.amount;
        true
    }
}

struct World {
    ledger: Ledger,
    admin_address: Address,
    admin_state: AdminState,
    treasury_state: TreasuryState,
}

fn initialized() -> World {
    let mut ledger = Ledger { accounts: Vec::new() };
    let (admin_address, _) = derive_admin(&program()).unwrap();
    let (treasury_address, _) = derive_treasury(&mint(), &program()).unwrap();
    let treasury_ata = ledger.open(addr(30), treasury_address);
    let mut ctx = Initialize {
        program_id: program(),
        admin_state: Account::new(admin_address, None),
        treasury_state: Account::new(treasury_address, None),
        treasury_ata,
        token_mint: mint(),
        payer: caller(),
    };
    initialize(&mut ctx, mint(), 1_700_000_000).unwrap();
    World {
        ledger,
        admin_address,
        admin_state: ctx.admin_state.data.unwrap(),
        treasury_state: ctx.treasury_state.data.unwrap(),
    }
}

fn create(world: &mut World, user_id: &str, n: u8) -> Account<UserPDA> {
    let (address, _) = derive_vault(user_id, &program()).unwrap();
    let user_ata = world.ledger.open(addr(100 + n), address);
    let mut ctx = CreateUserDepositAccount {
        program_id: program(),
        user_pda: Account::new(address, None),
        user_ata,
        subscription_token_mint: mint(),
        payer: addr(50),
    };
    create_user_deposit_account(&mut ctx, user_id, 1_700_000_100).unwrap();
    Account::new(address, ctx.user_pda.data.unwrap())
}

fn sweep_context(world: &World, custody: &Account<UserPDA>, admin: Address) -> AdminTransferToTreasury {
    AdminTransferToTreasury {
        program_id: program(),
        admin_state: world.admin_state,
        treasury_state: world.treasury_state,
        user_pda: custody.clone(),
        user_pda_ata: world.ledger.read(custody.data.token_account),
        treasury_ata: addr(30),
        mint: mint(),
        admin,
    }
}

#[test]
fn initialize_makes_the_caller_administrator() {
    let mut ledger = Ledger { accounts: Vec::new() };
    let (admin_address, admin_bump) = derive_admin(&program()).unwrap();
    let (treasury_address, treasury_bump) = derive_treasury(&mint(), &program()).unwrap();
    let treasury_ata = ledger.open(addr(30), treasury_address);
    let mut ctx = Initialize {
        program_id: program(),
        admin_state: Account::new(admin_address, None),
        treasury_state: Account::new(treasury_address, None),
        treasury_ata: treasury_ata.clone(),
        token_mint: mint(),
        payer: caller(),
    };
    let event = initialize(&mut ctx, mint(), 1_700_000_000);
    assert_eq!(
        event,
        Ok(ProgramInitialized { admin: caller(), token_mint: mint(), treasury_ata: addr(30) })
    );
    assert_eq!(
        ctx.admin_state.data,
        Some(AdminState { admin: caller(), bump: admin_bump, created_at: 1_700_000_000 })
    );
    assert_eq!(
        ctx.treasury_state.data,
        Some(TreasuryState {
            token_mint: mint(),
            treasury_ata: addr(30),
            bump: treasury_bump,
            created_at: 1_700_000_000,
        })
    );
    assert_eq!(ctx.admin_state.address, admin_address);
    assert_eq!(ctx.treasury_state.address, treasury_address);
    assert_eq!(ctx.treasury_ata, treasury_ata);
    assert_eq!(ledger.balance(addr(30)), 0);
}

#[test]
fn initialize_twice_fails_and_keeps_the_first_administrator() {
    let mut ledger = Ledger { accounts: Vec::new() };
    let (admin_address, _) = derive_admin(&program()).unwrap();
    let (treasury_address, _) = derive_treasury(&mint(), &program()).unwrap();
    let treasury_ata = ledger.open(addr(30), treasury_address);
    let mut ctx = Initialize {
        program_id: program(),
        admin_state: Account::new(admin_address, None),
        treasury_state: Account::new(treasury_address, None),
        treasury_ata,
        token_mint: mint(),
        payer: caller(),
    };
    initialize(&mut ctx, mint(), 1_700_000_000).unwrap();
    let first = ctx.clone();
    ctx.payer = addr(66);
    let second = initialize(&mut ctx, mint(), 1_800_000_000);
    assert_eq!(second, Err(CreationError::AlreadyExists));
    assert_eq!(ctx.admin_state, first.admin_state);
    assert_eq!(ctx.treasury_state, first.treasury_state);
    assert_eq!(ctx.admin_state.data.unwrap().admin, caller());
}

#[test]
fn initialize_refuses_records_that_are_out_of_place() {
    let (admin_address, _) = derive_admin(&program()).unwrap();
    let (treasury_address, _) = derive_treasury(&mint(), &program()).unwrap();
    let good = Initialize {
        program_id: program(),
        admin_state: Account::new(admin_address, None),
        treasury_state: Account::new(treasury_address, None),
        treasury_ata: Account::new(addr(30), TokenAccount { mint: mint(), owner: treasury_address, amount: 0 }),
        token_mint: mint(),
        payer: caller(),
    };

    let mut ctx = good.clone();
    ctx.admin_state.address = addr(1);
    assert_eq!(
        initialize(&mut ctx, mint(), 0),
        Err(CreationError::Rejected(ErrorCode::InvalidPDA))
    );
    assert_eq!(ctx.admin_state.data, None);

    let mut ctx = good.clone();
    ctx.treasury_state.address = addr(2);
    ctx.treasury_ata.data.owner = addr(2);
    assert_eq!(
        initialize(&mut ctx, mint(), 0),
        Err(CreationError::Rejected(ErrorCode::InvalidPDA))
    );

    let mut ctx = good.clone();
    assert_eq!(
        initialize(&mut ctx, addr(21), 0),
        Err(CreationError::Rejected(ErrorCode::InvalidTokenMint))
    );

    let mut ctx = good.clone();
    ctx.token_mint = addr(21);
    assert_eq!(
        initialize(&mut ctx, addr(21), 0),
        Err(CreationError::Rejected(ErrorCode::InvalidPDA))
    );

    let mut ctx = good.clone();
    ctx.treasury_ata.data.owner = caller();
    assert_eq!(
        initialize(&mut ctx, mint(), 0),
        Err(CreationError::Rejected(ErrorCode::InvalidTreasuryATA))
    );
    assert_eq!(ctx, {
        let mut unchanged = good.clone();
        unchanged.treasury_ata.data.owner = caller();
        unchanged
    });

    let mut ctx = good.clone();
    ctx.treasury_ata.data.mint = addr(21);
    assert_eq!(
        initialize(&mut ctx, mint(), 0),
        Err(CreationError::Rejected(ErrorCode::InvalidTokenMint))
    );
    assert_eq!(ctx.admin_state.data, None);
    assert_eq!(ctx.treasury_state.data, None);

    let mut ctx = good.clone();
    ctx.treasury_ata.data.amount = 1;
    assert_eq!(
        initialize(&mut ctx, mint(), 0),
        Err(CreationError::Rejected(ErrorCode::InvalidTreasuryATA))
    );
    assert_eq!(ctx.admin_state.data, None);
    assert_eq!(ctx.treasury_state.data, None);
}

#[test]
fn create_user_vault_writes_the_custody_record() {
    let mut world = initialized();
    let (address, bump) = derive_vault("alice", &program()).unwrap();
    let user_ata = world.ledger.open(addr(101), address);
    let mut ctx = CreateUserDepositAccount {
        program_id: program(),
        user_pda: Account::new(address, None),
        user_ata,
        subscription_token_mint: mint(),
        payer: addr(50),
    };
    let result = create_user_deposit_account(&mut ctx, "alice", 1_700_000_100);
    assert_eq!(
        result,
        Ok((
            CreateAccountResult {
                pda_address: address,
                ata_address: addr(101),
                user_id: "alice".to_string(),
                success: true,
            },
            UserDepositAccountCreated {
                user_id: "alice".to_string(),
                pda_address: address,
                token_account: addr(101),
                owner: addr(50),
            },
        ))
    );
    assert_eq!(
        ctx.user_pda.data,
        Some(UserPDA {
            user_id: "alice".to_string(),
            owner: addr(50),
            token_account: addr(101),
            bump,
            created_at: 1_700_000_100,
        })
    );
    assert_eq!(world.ledger.balance(addr(101)), 0);
}

#[test]
fn create_user_vault_twice_fails_and_keeps_the_first_record() {
    let mut world = initialized();
    let (address, _) = derive_vault("alice", &program()).unwrap();
    let user_ata = world.ledger.open(addr(101), address);
    let mut ctx = CreateUserDepositAccount {
        program_id: program(),
        user_pda: Account::new(address, None),
        user_ata,
        subscription_token_mint: mint(),
        payer: addr(50),
    };
    create_user_deposit_account(&mut ctx, "alice", 1_700_000_100).unwrap();
    let first = ctx.user_pda.clone();

    ctx.payer = addr(51);
    let second = create_user_deposit_account(&mut ctx, "alice", 1_700_000_200);
    assert_eq!(second, Err(CreationError::AlreadyExists));
    assert_eq!(ctx.user_pda, first);
    assert_eq!(ctx.user_pda.data.as_ref().unwrap().owner, addr(50));
    assert_eq!(ctx.user_pda.data.as_ref().unwrap().created_at, 1_700_000_100);
}

#[test]
fn create_user_vault_refusals() {
    let (address, _) = derive_vault("alice", &program()).unwrap();
    let good = CreateUserDepositAccount {
        program_id: program(),
        user_pda: Account::new(address, None),
        user_ata: Account::new(addr(101), TokenAccount { mint: mint(), owner: address, amount: 0 }),
        subscription_token_mint: mint(),
        payer: addr(50),
    };
    let refused = |ctx: &CreateUserDepositAccount, user_id: &str| {
        let mut ctx = ctx.clone();
        let before = ctx.clone();
        let result = create_user_deposit_account(&mut ctx, user_id, 0);
        assert_eq!(ctx, before);
        result.unwrap_err()
    };
    assert_eq!(refused(&good, ""), CreationError::Rejected(ErrorCode::EmptyUserId));
    assert_eq!(refused(&good, &"u".repeat(51)), CreationError::Rejected(ErrorCode::UserIdTooLong));
    assert_eq!(refused(&good, &"u".repeat(50)), CreationError::Rejected(ErrorCode::InvalidPDA));
    assert_eq!(refused(&good, "bob"), CreationError::Rejected(ErrorCode::InvalidPDA));

    let mut ctx = good.clone();
    ctx.user_ata.data.owner = addr(50);
    assert_eq!(refused(&ctx, "alice"), CreationError::Rejected(ErrorCode::InvalidUserATA));

    let mut ctx = good.clone();
    ctx.user_ata.data.mint = addr(21);
    assert_eq!(refused(&ctx, "alice"), CreationError::Rejected(ErrorCode::InvalidTokenMint));

    let mut ctx = good.clone();
    ctx.user_ata.data.amount = 1;
    assert_eq!(refused(&ctx, "alice"), CreationError::Rejected(ErrorCode::InvalidUserATA));

    let mut ctx = good.clone();
    ctx.program_id = addr(8);
    assert_eq!(refused(&ctx, "alice"), CreationError::Rejected(ErrorCode::InvalidPDA));
}

#[test]
fn deposit_then_sweep_moves_the_funds() {
    let mut world = initialized();
    assert_eq!(world.admin_state.admin, caller());
    assert_eq!(world.treasury_state.token_mint, mint());
    assert_eq!(world.ledger.balance(addr(30)), 0);

    let custody = create(&mut world, "alice", 1);
    assert_eq!(custody.data.user_id, "alice");
    assert_eq!(world.ledger.balance(addr(101)), 0);

    let depositor = addr(70);
    world.ledger.open(addr(71), depositor);
    world.ledger.fund(addr(71), 500);
    let deposit = deposit_tokens(
        &DepositTokens {
            program_id: program(),
            user_pda: custody.clone(),
            user_pda_ata: world.ledger.read(addr(101)),
            user_token_account: world.ledger.read(addr(71)),
            mint: mint(),
            user: depositor,
        },
        "alice",
        100,
    )
    .unwrap();
    assert!(world.ledger.transfer(&deposit.order));
    assert_eq!(world.ledger.balance(addr(101)), 100);
    assert_eq!(world.ledger.balance(addr(71)), 400);

    let sweep = admin_transfer_to_treasury(&sweep_context(&world, &custody, caller()), "alice", 40).unwrap();
    assert!(world.ledger.transfer(&sweep.order));
    assert_eq!(world.ledger.balance(addr(101)), 60);
    assert_eq!(world.ledger.balance(addr(30)), 40);
    assert_eq!(sweep.event.remaining_balance, 60);

    let info = get_treasury_info(&GetTreasuryInfo {
        treasury_state: world.treasury_state,
        treasury_ata: world.ledger.read(addr(30)),
    });
    assert_eq!(
        info,
        Ok(TreasuryInfo {
            token_mint: mint(),
            treasury_ata: addr(30),
            balance: 40,
            created_at: 1_700_000_000,
        })
    );
}

#[test]
fn sweep_beyond_the_balance_moves_nothing() {
    let mut world = initialized();
    let custody = create(&mut world, "alice", 1);
    world.ledger.fund(addr(101), 100);
    let result = admin_transfer_to_treasury(&sweep_context(&world, &custody, caller()), "alice", 101);
    assert_eq!(result, Err(ErrorCode::InsufficientBalance));
    assert_eq!(world.ledger.balance(addr(101)), 100);
    assert_eq!(world.ledger.balance(addr(30)), 0);
}

#[test]
fn batch_that_aborts_leaves_every_balance_as_it_was() {
    let mut world = initialized();
    let users = ["alice", "bob", "carol", "dave"];
    let mut handles = Vec::new();
    for (n, user_id) in users.iter().enumerate() {
        let custody = create(&mut world, user_id, n as u8 + 1);
        world.ledger.fund(addr(101 + n as u8), if n == 3 { 5 } else { 100 });
        handles.push(AccountHandle::Custody(custody.clone()));
        handles.push(AccountHandle::Token(world.ledger.read(custody.data.token_account)));
    }
    let ctx = AdminBatchTransferToTreasury {
        program_id: program(),
        admin_state: world.admin_state,
        treasury_state: world.treasury_state,
        treasury_ata: addr(30),
        mint: mint(),
        admin: caller(),
    };
    let ids: Vec<String> = users.iter().map(|user| user.to_string()).collect();

    let before = world.ledger.clone();
    let result = admin_batch_transfer_to_treasury(&ctx, &ids, &vec![10, 20, 30, 6], &handles);
    assert_eq!(result, Err(ErrorCode::InsufficientBalance));
    for account in &before.accounts {
        assert_eq!(world.ledger.balance(account.address), account.data.amount);
    }
    assert_eq!(world.ledger.balance(addr(101)), 100);
    assert_eq!(world.ledger.balance(addr(102)), 100);
    assert_eq!(world.ledger.balance(addr(103)), 100);
    assert_eq!(world.ledger.balance(addr(30)), 0);

    let batch = admin_batch_transfer_to_treasury(&ctx, &ids, &vec![10, 20, 30, 5], &handles).unwrap();
    for transfer in &batch.transfers {
        assert!(world.ledger.transfer(&transfer.order));
    }
    assert_eq!(world.ledger.balance(addr(101)), 90);
    assert_eq!(world.ledger.balance(addr(102)), 80);
    assert_eq!(world.ledger.balance(addr(103)), 70);
    assert_eq!(world.ledger.balance(addr(104)), 0);
    assert_eq!(world.ledger.balance(addr(30)), 65);
    assert_eq!(batch.total_transferred, 65);
}

#[test]
fn rotate_admin_replaces_the_administrator() {
    let mut world = initialized();
    let custody = create(&mut world, "alice", 1);
    world.ledger.fund(addr(101), 100);

    let mut ctx = UpdateAdmin { admin_state: world.admin_state, current_admin: caller() };
    let event = update_admin(&mut ctx, addr(11));
    assert_eq!(
        event,
        Ok(AdminUpdated { old_admin: caller(), new_admin: addr(11), updated_by: caller() })
    );
    assert_eq!(
        ctx.admin_state,
        AdminState { admin: addr(11), bump: world.admin_state.bump, created_at: 1_700_000_000 }
    );
    world.admin_state = ctx.admin_state;

    assert_eq!(
        admin_transfer_to_treasury(&sweep_context(&world, &custody, caller()), "alice", 40),
        Err(ErrorCode::UnauthorizedAdmin)
    );
    assert!(admin_transfer_to_treasury(&sweep_context(&world, &custody, addr(11)), "alice", 40).is_ok());

    let mut by_old = UpdateAdmin { admin_state: world.admin_state, current_admin: caller() };
    assert_eq!(update_admin(&mut by_old, addr(12)), Err(ErrorCode::UnauthorizedAdmin));
    assert_eq!(by_old.admin_state, world.admin_state);

    assert_eq!(
        get_admin_info(&GetAdminInfo { admin_state: world.admin_state }),
        Ok(AdminInfo { admin: addr(11), created_at: 1_700_000_000 })
    );
    assert_eq!(derive_admin(&program()).unwrap().0, world.admin_address);
}

#[test]
fn rotate_admin_to_the_same_administrator_fails() {
    let state = AdminState { admin: caller(), bump: 254, created_at: 5 };
    let mut ctx = UpdateAdmin { admin_state: state, current_admin: caller() };
    assert_eq!(update_admin(&mut ctx, caller()), Err(ErrorCode::SameAdminUpdate));
    assert_eq!(ctx.admin_state, state);
}

#[test]
fn rotate_admin_to_the_null_identity_fails() {
    let state = AdminState { admin: caller(), bump: 254, created_at: 5 };
    let mut ctx = UpdateAdmin { admin_state: state, current_admin: caller() };
    assert_eq!(update_admin(&mut ctx, Address::default()), Err(ErrorCode::InvalidNewAdmin));
    assert_eq!(update_admin(&mut ctx, Address::new([0u8; 32])), Err(ErrorCode::InvalidNewAdmin));
    assert_eq!(ctx.admin_state, state);
    let mut stranger = UpdateAdmin { admin_state: state, current_admin: addr(11) };
    assert_eq!(update_admin(&mut stranger, Address::default()), Err(ErrorCode::InvalidNewAdmin));
    assert_eq!(update_admin(&mut stranger, caller()), Err(ErrorCode::UnauthorizedAdmin));
    assert_eq!(update_admin(&mut stranger, addr(11)), Err(ErrorCode::UnauthorizedAdmin));
    assert_eq!(stranger.admin_state, state);
}

#[test]
fn deposit_orders_the_whole_amount_on_the_depositors_authority() {
    let mut world = initialized();
    let custody = create(&mut world, "alice", 1);
    let ctx = DepositTokens {
        program_id: program(),
        user_pda: custody.clone(),
        user_pda_ata: world.ledger.read(addr(101)),
        user_token_account: Account::new(addr(71), TokenAccount { mint: mint(), owner: addr(70), amount: 500 }),
        mint: mint(),
        user: addr(70),
    };
    let receipt = deposit_tokens(&ctx, "alice", 100).unwrap();
    assert_eq!(
        receipt.order,
        TransferOrder { from: addr(71), to: addr(101), authority: addr(70), amount: 100 }
    );
    assert_eq!(receipt.event.user_id, "alice");
    assert_eq!(receipt.event.amount, 100);
    assert_eq!(receipt.event.depositor, addr(70));
    assert_eq!(receipt.event.pda_ata, addr(101));
    assert_eq!(deposit_tokens(&ctx, "alice", u64::MAX).unwrap().order.amount, u64::MAX);
}

#[test]
fn deposit_refusals() {
    let mut world = initialized();
    let custody = create(&mut world, "alice", 1);
    let good = DepositTokens {
        program_id: program(),
        user_pda: custody.clone(),
        user_pda_ata: world.ledger.read(addr(101)),
        user_token_account: Account::new(addr(71), TokenAccount { mint: mint(), owner: addr(70), amount: 500 }),
        mint: mint(),
        user: addr(70),
    };
    assert_eq!(deposit_tokens(&good, "alice", 0), Err(ErrorCode::InvalidAmount));
    assert_eq!(deposit_tokens(&good, "bob", 100), Err(ErrorCode::InvalidPDA));
    assert_eq!(deposit_tokens(&good, "", 100), Err(ErrorCode::InvalidPDA));

    let mut ctx = good.clone();
    ctx.user_pda.data.bump = ctx.user_pda.data.bump.wrapping_add(1);
    assert_eq!(deposit_tokens(&ctx, "alice", 100), Err(ErrorCode::InvalidPDA));

    let mut ctx = good.clone();
    ctx.user_pda_ata.address = addr(102);
    assert_eq!(deposit_tokens(&ctx, "alice", 100), Err(ErrorCode::InvalidUserATA));

    let mut ctx = good.clone();
    ctx.user_pda_ata.data.owner = addr(70);
    assert_eq!(deposit_tokens(&ctx, "alice", 100), Err(ErrorCode::InvalidUserATA));

    let mut ctx = good.clone();
    ctx.mint = addr(21);
    assert_eq!(deposit_tokens(&ctx, "alice", 100), Err(ErrorCode::InvalidTokenMint));

    let mut ctx = good.clone();
    ctx.user_token_account.data.mint = addr(21);
    assert_eq!(deposit_tokens(&ctx, "alice", 100), Err(ErrorCode::InvalidTokenMint));

    let mut ctx = good.clone();
    ctx.user_token_account.data.owner = addr(72);
    assert_eq!(deposit_tokens(&ctx, "alice", 100), Err(ErrorCode::InvalidUserATA));

    let mut ctx = good.clone();
    ctx.user = addr(72);
    assert_eq!(deposit_tokens(&ctx, "alice", 100), Err(ErrorCode::InvalidUserATA));
}

#[test]
fn query_vault_info_projects_the_custody_record() {
    let mut world = initialized();
    let custody = create(&mut world, "alice", 1);
    let info = get_user_deposit_info(&GetUserDepositInfo { user_pda: custody.clone() });
    assert_eq!(
        info,
        Ok(UserDepositInfo {
            pda_address: custody.address,
            user_id: "alice".to_string(),
            owner: addr(50),
            token_account: addr(101),
            created_at: 1_700_000_100,
        })
    );
}

#[test]
fn query_treasury_info_refuses_another_sub_account() {
    let world = initialized();
    let other = Account::new(addr(31), TokenAccount { mint: mint(), owner: addr(1), amount: 9 });
    assert_eq!(
        get_treasury_info(&GetTreasuryInfo { treasury_state: world.treasury_state, treasury_ata: other }),
        Err(ErrorCode::InvalidTreasuryATA)
    );
    let wrong_mint = Account::new(addr(30), TokenAccount { mint: addr(21), owner: addr(1), amount: 9 });
    assert_eq!(
        get_treasury_info(&GetTreasuryInfo { treasury_state: world.treasury_state, treasury_ata: wrong_mint }),
        Err(ErrorCode::InvalidTokenMint)
    );
}

#[test]
fn initialize_test_answers() {
    assert_eq!(initialize_test(&InitializeTest {}), Ok(()));
}

#[test]
fn decisions_go_by_what_was_derived() {
    let good = Initialize {
        program_id: program(),
        admin_state: Account::new(addr(1), None),
        treasury_state: Account::new(addr(2), None),
        treasury_ata: Account::new(addr(30), TokenAccount { mint: mint(), owner: addr(2), amount: 0 }),
        token_mint: mint(),
        payer: caller(),
    };
    let mut ctx = good.clone();
    assert_eq!(
        decide_initialization(&mut ctx, mint(), 9, Some((addr(1), 255)), Some((addr(2), 254))),
        Ok(ProgramInitialized { admin: caller(), token_mint: mint(), treasury_ata: addr(30) })
    );
    assert_eq!(ctx.admin_state.data, Some(AdminState { admin: caller(), bump: 255, created_at: 9 }));
    assert_eq!(
        ctx.treasury_state.data,
        Some(TreasuryState { token_mint: mint(), treasury_ata: addr(30), bump: 254, created_at: 9 })
    );
    let mut ctx = good.clone();
    assert_eq!(
        decide_initialization(&mut ctx, mint(), 9, None, Some((addr(2), 254))),
        Err(CreationError::Rejected(ErrorCode::InvalidPDA))
    );
    assert_eq!(
        decide_initialization(&mut ctx, mint(), 9, Some((addr(1), 255)), Some((addr(3), 254))),
        Err(CreationError::Rejected(ErrorCode::InvalidPDA))
    );
    assert_eq!(ctx, good);

    let mut vault = CreateUserDepositAccount {
        program_id: program(),
        user_pda: Account::new(addr(5), None),
        user_ata: Account::new(addr(101), TokenAccount { mint: mint(), owner: addr(5), amount: 0 }),
        subscription_token_mint: mint(),
        payer: addr(50),
    };
    assert_eq!(
        decide_creation(&mut vault, "alice", 3, Some((addr(6), 250))),
        Err(CreationError::Rejected(ErrorCode::InvalidPDA))
    );
    assert_eq!(
        decide_creation(&mut vault, "alice", 3, None),
        Err(CreationError::Rejected(ErrorCode::InvalidPDA))
    );
    assert!(decide_creation(&mut vault, "alice", 3, Some((addr(5), 250))).is_ok());
    let record = vault.user_pda.data.clone().unwrap();
    assert_eq!(record.bump, 250);
    assert_eq!(record.created_at, 3);
    assert_eq!(
        decide_creation(&mut vault, "alice", 4, Some((addr(5), 250))),
        Err(CreationError::AlreadyExists)
    );
    assert_eq!(vault.user_pda.data, Some(record.clone()));

    let deposit = DepositTokens {
        program_id: program(),
        user_pda: Account::new(addr(5), record),
        user_pda_ata: vault.user_ata.clone(),
        user_token_account: Account::new(addr(71), TokenAccount { mint: mint(), owner: addr(70), amount: 500 }),
        mint: mint(),
        user: addr(70),
    };
    assert!(decide_deposit(&deposit, "alice", 1, Some((addr(5), 250))).is_ok());
    assert_eq!(decide_deposit(&deposit, "alice", 1, Some((addr(5), 249))), Err(ErrorCode::InvalidPDA));
    assert_eq!(decide_deposit(&deposit, "alice", 1, None), Err(ErrorCode::InvalidPDA));
    assert_eq!(decide_deposit(&deposit, "alice", 0, None), Err(ErrorCode::InvalidAmount));
}

#[test]
fn null_identity_is_the_default_key() {
    assert_eq!(Address::default().to_bytes(), anchor_lang::prelude::Pubkey::default().to_bytes());
}
