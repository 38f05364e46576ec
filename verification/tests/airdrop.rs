use az_airdrop::{
    AccountId, AzAirdrop, AzAirdropError, Balance, Config, LangError, Recipient, RecipientAdd,
    RecipientSubtract, Timestamp, TokenCall,
};

const MOCK_START: Timestamp = 654_654;

fn account(byte: u8) -> AccountId {
    AccountId::from_bytes([byte; 32])
}

fn alice() -> AccountId {
    account(1)
}

fn bob() -> AccountId {
    account(2)
}

fn charlie() -> AccountId {
    account(3)
}

fn django() -> AccountId {
    account(4)
}

fn mock_token() -> AccountId {
    django()
}

fn init() -> AzAirdrop {
    AzAirdrop::new(bob(), mock_token(), MOCK_START, 100, 0, 0).unwrap()
}

fn unprocessable<T>(reason: &str) -> Result<T, AzAirdropError> {
    Err(AzAirdropError::UnprocessableEntity(reason.to_string()))
}

fn not_found<T>() -> Result<T, AzAirdropError> {
    Err(AzAirdropError::NotFound("Recipient".to_string()))
}

/// The ledger with `recipient` as the record of `address`.
fn with_recipient(airdrop: &AzAirdrop, address: AccountId, recipient: Recipient) -> AzAirdrop {
    let mut entries = airdrop.recipients();
    match entries.iter().position(|entry| entry.0 == address) {
        Some(i) => entries[i] = (address, recipient),
        None => entries.push((address, recipient)),
    }
    AzAirdrop::restore(airdrop.config(), entries).unwrap()
}

/// The ledger with `amount` as the aggregate it owes.
fn with_to_be_collected(airdrop: &AzAirdrop, amount: Balance) -> AzAirdrop {
    let mut config = airdrop.config();
    config.to_be_collected = amount;
    AzAirdrop::restore(config, airdrop.recipients()).unwrap()
}

#[test]
fn test_new() {
    let result = AzAirdrop::new(bob(), mock_token(), MOCK_START, 0, 0, 0);
    assert!(result.is_err());
}

#[test]
fn test_collectable_amount() {
    let mut az_airdrop = init();
    let recipient_address = django();
    let mut recipient = Recipient {
        total_amount: 100,
        collected: 0,
        collectable_at_tge_percentage: 100,
        cliff_duration: 0,
        vesting_duration: 0,
    };
    // when recipient does not exist
    let mut result = az_airdrop.collectable_amount(recipient_address, 0);
    assert_eq!(result, not_found());
    // when recipient exists
    az_airdrop = with_recipient(&az_airdrop, recipient_address, recipient);
    // = when provided timestamp is before the start time
    result = az_airdrop.collectable_amount(recipient_address, MOCK_START - 1);
    let mut result_unwrapped: Balance = result.unwrap();
    assert_eq!(result_unwrapped, 0);
    // = when provided timestamp is greater than or equal to start time
    // === when collectable_at_tge_percentage is 100
    result = az_airdrop.collectable_amount(recipient_address, MOCK_START);
    result_unwrapped = result.unwrap();
    assert_eq!(result_unwrapped, recipient.total_amount);
    // === when collectable_at_tge_percentage is 20
    // ==== when vesting time has not been reached
    recipient = az_airdrop
        .update_recipient(bob(), 0, recipient_address, Some(20), Some(1), Some(100))
        .unwrap();
    result = az_airdrop.collectable_amount(recipient_address, MOCK_START);
    result_unwrapped = result.unwrap();
    assert_eq!(result_unwrapped, 20);
    result = az_airdrop.collectable_amount(recipient_address, MOCK_START + 1);
    result_unwrapped = result.unwrap();
    assert_eq!(result_unwrapped, 20);
    // ==== when partial vesting time has been reached
    result =
        az_airdrop.collectable_amount(recipient_address, MOCK_START + recipient.cliff_duration + 2);
    result_unwrapped = result.unwrap();
    assert_eq!(result_unwrapped, 20 + (2 * 80 / 100));
    // ==== when total vesting time has been reached
    result = az_airdrop.collectable_amount(
        recipient_address,
        MOCK_START + recipient.cliff_duration + recipient.vesting_duration * 1_000_000,
    );
    result_unwrapped = result.unwrap();
    assert_eq!(result_unwrapped, recipient.total_amount);
    // ==== it factors in recipient.collected
    recipient.collected = 20;
    az_airdrop = with_recipient(&az_airdrop, recipient_address, recipient);
    result = az_airdrop.collectable_amount(
        recipient_address,
        MOCK_START + recipient.cliff_duration + recipient.vesting_duration,
    );
    result_unwrapped = result.unwrap();
    assert_eq!(result_unwrapped, recipient.total_amount - 20);
}

#[test]
fn test_config() {
    let az_airdrop = init();
    let config = az_airdrop.config();
    assert_eq!(config.token, mock_token());
    assert_eq!(config.admin, bob());
    assert_eq!(config.sub_admins, Vec::<AccountId>::new());
    assert_eq!(config.to_be_collected, 0);
    assert_eq!(config.start, MOCK_START);
    assert_eq!(config.default_collectable_at_tge_percentage, 100);
    assert_eq!(config.default_cliff_duration, 0);
    assert_eq!(config.default_vesting_duration, 0);
}

#[test]
fn test_recipient_add() {
    let mut az_airdrop = init();
    let amount: Balance = 5;
    // when caller is not authorised
    let mut result =
        az_airdrop.recipient_add(charlie(), 0, 0, charlie(), amount, None, None, None, None);
    assert_eq!(result, Err(AzAirdropError::Unauthorised));
    // when caller is authorised
    az_airdrop.sub_admins_add(bob(), charlie()).unwrap();
    // = when airdrop has started
    result = az_airdrop.recipient_add(
        charlie(),
        MOCK_START,
        0,
        charlie(),
        amount,
        None,
        None,
        None,
        None,
    );
    assert_eq!(result, unprocessable("Airdrop has started"));
    // = when airdrop has not started
    // == when amount will cause overflow
    az_airdrop = with_to_be_collected(&az_airdrop, Balance::MAX);
    result = az_airdrop.recipient_add(
        charlie(),
        MOCK_START - 1,
        0,
        charlie(),
        amount,
        None,
        None,
        None,
        None,
    );
    assert_eq!(result, unprocessable("Amount will cause to_be_collected to overflow"));
    // a refused grant leaves the ledger as it was
    assert_eq!(az_airdrop.config().to_be_collected, Balance::MAX);
    assert_eq!(az_airdrop.recipients(), vec![]);
}

#[test]
fn lib_test_recipient_add() {
    let start: Timestamp = 2_708_075_722_737;
    let default_collectable_at_tge_percentage: u8 = 20;
    let default_cliff_duration: Timestamp = 0;
    let default_vesting_duration: Timestamp = 31_556_952_000;
    let mut az_airdrop = AzAirdrop::new(
        alice(),
        mock_token(),
        start,
        default_collectable_at_tge_percentage,
        default_cliff_duration,
        default_vesting_duration,
    )
    .unwrap();
    // when the escrow does not hold the balance to cover the amount
    let result = az_airdrop.recipient_add(alice(), 0, 0, bob(), 1, None, None, None, None);
    assert_eq!(result, unprocessable("Insufficient balance"));
    // when the escrow holds the balance to cover the amount
    let (recipient, event) =
        az_airdrop.recipient_add(alice(), 0, 1, bob(), 1, None, None, None, None).unwrap();
    assert_eq!(
        event,
        RecipientAdd { address: bob(), amount: 1, caller: alice(), description: None }
    );
    assert_eq!(recipient, az_airdrop.show(bob()).unwrap());
    assert_eq!(recipient.total_amount, 1);
    assert_eq!(recipient.collected, 0);
    assert_eq!(recipient.collectable_at_tge_percentage, default_collectable_at_tge_percentage);
    assert_eq!(recipient.cliff_duration, default_cliff_duration);
    assert_eq!(recipient.vesting_duration, default_vesting_duration);
    assert_eq!(az_airdrop.config().to_be_collected, 1);
}

#[test]
fn test_recipient_add_accumulates() {
    let mut az_airdrop = init();
    let note = Some("first round".to_string());
    let (first, event) = az_airdrop
        .recipient_add(bob(), 0, 10, alice(), 4, None, None, None, note.clone())
        .unwrap();
    assert_eq!(first.total_amount, 4);
    assert_eq!(RecipientAdd { address: alice(), amount: 4, caller: bob(), description: note }, event);
    // exactly the escrowed balance is enough
    let (second, _) =
        az_airdrop.recipient_add(bob(), 0, 10, alice(), 6, None, None, None, None).unwrap();
    assert_eq!(second.total_amount, 10);
    assert_eq!(az_airdrop.config().to_be_collected, 10);
    // one more is not covered
    let result = az_airdrop.recipient_add(bob(), 0, 10, charlie(), 1, None, None, None, None);
    assert_eq!(result, unprocessable("Insufficient balance"));
    assert_eq!(az_airdrop.recipients(), vec![(alice(), second)]);
}

#[test]
fn test_recipient_add_with_schedule() {
    let mut az_airdrop = init();
    // a part of the schedule that is given is set on the record
    let (recipient, _) = az_airdrop
        .recipient_add(bob(), 0, 100, alice(), 40, Some(25), Some(10), Some(1000), None)
        .unwrap();
    assert_eq!(
        recipient,
        Recipient {
            total_amount: 40,
            collected: 0,
            collectable_at_tge_percentage: 25,
            cliff_duration: 10,
            vesting_duration: 1000,
        }
    );
    // a later grant keeps what is not given
    let (recipient, _) =
        az_airdrop.recipient_add(bob(), 0, 100, alice(), 10, None, Some(20), None, None).unwrap();
    assert_eq!(
        recipient,
        Recipient {
            total_amount: 50,
            collected: 0,
            collectable_at_tge_percentage: 25,
            cliff_duration: 20,
            vesting_duration: 1000,
        }
    );
    // a schedule that is not valid is refused, and nothing is granted
    let result =
        az_airdrop.recipient_add(bob(), 0, 100, alice(), 10, Some(100), None, None, None);
    assert_eq!(
        result,
        unprocessable(
            "cliff_duration and vesting_duration must be 0 when collectable_tge_percentage is 100"
        )
    );
    let result = az_airdrop.recipient_add(bob(), 0, 100, charlie(), 10, Some(50), None, None, None);
    assert_eq!(
        result,
        unprocessable(
            "vesting_duration must be greater than 0 when collectable_tge_percentage is not 100"
        )
    );
    assert_eq!(az_airdrop.show(alice()).unwrap(), recipient);
    assert_eq!(az_airdrop.show(charlie()), not_found());
    assert_eq!(az_airdrop.config().to_be_collected, 50);
}

#[test]
fn test_collect() {
    let mut az_airdrop = init();
    // when recipient with caller's address does not exist
    let mut result = az_airdrop.collect(bob(), 0, Ok(()));
    assert_eq!(result, not_found());
    // when recipient with caller's address exists
    az_airdrop = with_recipient(
        &az_airdrop,
        bob(),
        Recipient {
            total_amount: 5,
            collected: 0,
            collectable_at_tge_percentage: 100,
            cliff_duration: 0,
            vesting_duration: 0,
        },
    );
    // = when collectable amount is zero
    result = az_airdrop.collect(bob(), MOCK_START - 1, Ok(()));
    assert_eq!(result, unprocessable("Amount is zero"));
    assert_eq!(az_airdrop.collect_due(bob(), MOCK_START - 1), unprocessable("Amount is zero"));
}

#[test]
fn test_collect_records_a_transfer() {
    let mut az_airdrop = init();
    az_airdrop.recipient_add(bob(), 0, 12, alice(), 5, None, None, None, None).unwrap();
    az_airdrop.recipient_add(bob(), 0, 12, charlie(), 7, None, None, None, None).unwrap();
    // the window opens at the start itself
    assert_eq!(
        az_airdrop.collect_due(alice(), MOCK_START),
        Ok(TokenCall::Transfer { to: alice(), amount: 5 })
    );
    // a failed transfer is reported as it is and nothing is recorded
    let failure = AzAirdropError::InkEnvError("CalleeTrapped".to_string());
    let result = az_airdrop.collect(alice(), MOCK_START, Err(failure));
    assert_eq!(result, Err(AzAirdropError::InkEnvError("CalleeTrapped".to_string())));
    assert_eq!(az_airdrop.show(alice()).unwrap().collected, 0);
    assert_eq!(az_airdrop.config().to_be_collected, 12);
    let failure = AzAirdropError::ContractCall(LangError::CouldNotReadInput);
    let result = az_airdrop.collect(alice(), MOCK_START, Err(failure));
    assert_eq!(result, Err(AzAirdropError::ContractCall(LangError::CouldNotReadInput)));
    assert_eq!(az_airdrop.recipients()[0].1.collected, 0);
    // where nothing is due, that is the answer, whatever the transfer did
    let failure = AzAirdropError::InkEnvError("CalleeTrapped".to_string());
    let result = az_airdrop.collect(alice(), MOCK_START - 1, Err(failure));
    assert_eq!(result, unprocessable("Amount is zero"));
    // a transfer that went through is recorded
    assert_eq!(az_airdrop.collect(alice(), MOCK_START, Ok(())), Ok(5));
    assert_eq!(az_airdrop.show(alice()).unwrap().collected, 5);
    assert_eq!(az_airdrop.show(charlie()).unwrap().collected, 0);
    assert_eq!(az_airdrop.config().to_be_collected, 7);
    // nothing is left to collect
    let before = az_airdrop.recipients();
    assert_eq!(az_airdrop.collect(alice(), MOCK_START + 10, Ok(())), unprocessable("Amount is zero"));
    assert_eq!(az_airdrop.recipients(), before);
    assert_eq!(az_airdrop.config().to_be_collected, 7);
}

#[test]
fn test_collect_stops_at_the_limits() {
    // a ledger that owes less than a recipient can withdraw
    let az_airdrop = with_recipient(
        &init(),
        alice(),
        Recipient {
            total_amount: 9,
            collected: 0,
            collectable_at_tge_percentage: 100,
            cliff_duration: 0,
            vesting_duration: 0,
        },
    );
    let mut az_airdrop = with_to_be_collected(&az_airdrop, 4);
    assert_eq!(az_airdrop.collect(alice(), MOCK_START, Ok(())), Ok(9));
    assert_eq!(az_airdrop.show(alice()).unwrap().collected, 9);
    assert_eq!(az_airdrop.config().to_be_collected, 0);
}

#[test]
fn test_return_spare_token() {
    let az_airdrop = init();
    // when called by non-admin
    let result = az_airdrop.return_spare_tokens(charlie(), 0);
    assert_eq!(result, Err(AzAirdropError::Unauthorised));
}

#[test]
fn lib_test_return_spare_token() {
    let az_airdrop = AzAirdrop::new(alice(), mock_token(), 2_708_075_722_737, 20, 0, 31_556_952_000)
        .unwrap();
    // when there is no spare token
    let result = az_airdrop.return_spare_tokens(alice(), 0);
    assert_eq!(result, unprocessable("Amount is zero"));
    // when there is spare token
    let result = az_airdrop.return_spare_tokens(alice(), 1);
    assert_eq!(result, Ok(TokenCall::Transfer { to: alice(), amount: 1 }));
}

#[test]
fn test_return_spare_tokens_keeps_what_is_owed() {
    let mut az_airdrop = init();
    az_airdrop.recipient_add(bob(), 0, 250, alice(), 100, None, None, None, None).unwrap();
    assert_eq!(
        az_airdrop.return_spare_tokens(bob(), 250),
        Ok(TokenCall::Transfer { to: bob(), amount: 150 })
    );
    assert_eq!(az_airdrop.return_spare_tokens(bob(), 100), unprocessable("Amount is zero"));
    // an escrow that holds less than is owed has nothing spare
    assert_eq!(az_airdrop.return_spare_tokens(bob(), 99), unprocessable("Amount is zero"));
    // the window may be open
    assert_eq!(
        az_airdrop.return_spare_tokens(bob(), 101),
        Ok(TokenCall::Transfer { to: bob(), amount: 1 })
    );
}

#[test]
fn test_acquire_token() {
    let az_airdrop = init();
    assert_eq!(
        az_airdrop.acquire_token(bob(), MOCK_START - 1, 250, alice()),
        Ok(TokenCall::TransferFrom { from: alice(), amount: 250 })
    );
    assert_eq!(
        az_airdrop.acquire_token(charlie(), MOCK_START - 1, 250, alice()),
        Err(AzAirdropError::Unauthorised)
    );
    assert_eq!(
        az_airdrop.acquire_token(bob(), MOCK_START, 250, alice()),
        unprocessable("Airdrop has started")
    );
    // who may not is told so first
    assert_eq!(
        az_airdrop.acquire_token(charlie(), MOCK_START, 250, alice()),
        Err(AzAirdropError::Unauthorised)
    );
}

#[test]
fn test_sub_admins_add() {
    let mut az_airdrop = init();
    let new_sub_admin = django();
    // when called by admin
    // = when address is not a sub admin
    let mut result = az_airdrop.sub_admins_add(bob(), new_sub_admin);
    assert_eq!(result, Ok(vec![django()]));
    assert_eq!(az_airdrop.config().sub_admins, vec![django()]);
    assert_eq!(az_airdrop.is_sub_admin(new_sub_admin), true);
    // = when already a sub admin
    result = az_airdrop.sub_admins_add(bob(), new_sub_admin);
    assert_eq!(result, unprocessable("Already a sub admin"));
    // when called by non admin
    result = az_airdrop.sub_admins_add(charlie(), new_sub_admin);
    assert_eq!(result, Err(AzAirdropError::Unauthorised));
}

#[test]
fn test_sub_admins_remove() {
    let mut az_airdrop = init();
    let sub_admin_to_remove = django();
    // when called by admin
    // = when address is not a sub admin
    let mut result = az_airdrop.sub_admins_remove(bob(), sub_admin_to_remove);
    assert_eq!(result, unprocessable("Not a sub admin"));
    // = when address is a sub admin
    az_airdrop.sub_admins_add(bob(), sub_admin_to_remove).unwrap();
    result = az_airdrop.sub_admins_remove(bob(), sub_admin_to_remove);
    result.unwrap();
    assert_eq!(az_airdrop.config().sub_admins.len(), 0);
    assert_eq!(az_airdrop.is_sub_admin(sub_admin_to_remove), false);
    // when called by non admin
    result = az_airdrop.sub_admins_remove(charlie(), sub_admin_to_remove);
    assert_eq!(result, Err(AzAirdropError::Unauthorised));
}

#[test]
fn test_sub_admins_keep_their_order() {
    let mut az_airdrop = init();
    az_airdrop.sub_admins_add(bob(), alice()).unwrap();
    az_airdrop.sub_admins_add(bob(), charlie()).unwrap();
    az_airdrop.sub_admins_add(bob(), django()).unwrap();
    let left = az_airdrop.sub_admins_remove(bob(), charlie()).unwrap();
    assert_eq!(left, vec![alice(), django()]);
    // the list and the membership speak of the same addresses
    for candidate in [alice(), bob(), charlie(), django()] {
        assert_eq!(
            az_airdrop.is_sub_admin(candidate),
            az_airdrop.config().sub_admins.contains(&candidate)
        );
    }
    // a sub-admin may edit recipients, and may not administer
    assert_eq!(az_airdrop.authorise_to_update_recipient(django()), Ok(()));
    assert_eq!(az_airdrop.authorise_to_update_recipient(bob()), Ok(()));
    assert_eq!(
        az_airdrop.authorise_to_update_recipient(charlie()),
        Err(AzAirdropError::Unauthorised)
    );
    assert_eq!(
        az_airdrop.sub_admins_add(django(), charlie()),
        Err(AzAirdropError::Unauthorised)
    );
}

#[test]
fn test_recipient_subtract() {
    let mut az_airdrop = init();
    let amount: Balance = 5;
    let recipient_address = django();
    // when called by an admin or sub-admin
    // = when airdrop has started
    let mut result =
        az_airdrop.recipient_subtract(bob(), MOCK_START, recipient_address, amount, None);
    assert_eq!(result, unprocessable("Airdrop has started"));
    // = when airdrop has not started
    // == when recipient does not exist
    result = az_airdrop.recipient_subtract(bob(), MOCK_START - 1, recipient_address, amount, None);
    assert_eq!(result, not_found());
    // == when recipient exists
    az_airdrop = with_recipient(
        &az_airdrop,
        recipient_address,
        Recipient {
            total_amount: amount,
            collected: 0,
            collectable_at_tge_percentage: 0,
            cliff_duration: 0,
            vesting_duration: 0,
        },
    );
    // === when amount is greater than the recipient's total amount
    result =
        az_airdrop.recipient_subtract(bob(), MOCK_START - 1, recipient_address, amount + 1, None);
    assert_eq!(result, unprocessable("Amount is greater than recipient's total amount"));
    // === when amount is less than or equal to the recipient's total amount
    az_airdrop = with_to_be_collected(&az_airdrop, amount);
    let (subtracted, event) = az_airdrop
        .recipient_subtract(bob(), MOCK_START - 1, recipient_address, amount - 1, None)
        .unwrap();
    assert_eq!(
        event,
        RecipientSubtract {
            address: recipient_address,
            amount: amount - 1,
            caller: bob(),
            description: None
        }
    );
    let recipient = az_airdrop.show(recipient_address).unwrap();
    assert_eq!(subtracted, recipient);
    assert_eq!(recipient.total_amount, 1);
    // when called by non-admin or non-sub-admin
    result =
        az_airdrop.recipient_subtract(charlie(), MOCK_START - 1, recipient_address, amount, None);
    assert_eq!(result, Err(AzAirdropError::Unauthorised));
    assert_eq!(az_airdrop.config().to_be_collected, 1);
}

#[test]
fn test_recipient_subtract_stops_at_zero() {
    // a ledger that owes less than is subtracted
    let az_airdrop = with_recipient(
        &init(),
        alice(),
        Recipient {
            total_amount: 9,
            collected: 0,
            collectable_at_tge_percentage: 100,
            cliff_duration: 0,
            vesting_duration: 0,
        },
    );
    let mut az_airdrop = with_to_be_collected(&az_airdrop, 4);
    let (recipient, _) = az_airdrop.recipient_subtract(bob(), 0, alice(), 9, None).unwrap();
    assert_eq!(recipient.total_amount, 0);
    assert_eq!(az_airdrop.config().to_be_collected, 0);
}

#[test]
fn test_update_config() {
    let mut az_airdrop = init();
    // when called by admin
    // = when new admin is provided
    az_airdrop.update_config(bob(), 0, Some(django()), None, None, None, None).unwrap();
    let config: Config = az_airdrop.config();
    assert_eq!(config.admin, django());
    // = when new start is provided
    // == when new start is before or equal to current time stamp
    let current_timestamp: Timestamp = 5;
    let result = az_airdrop.update_config(
        django(),
        current_timestamp,
        None,
        Some(current_timestamp),
        None,
        None,
        None,
    );
    assert_eq!(result, unprocessable("New start time must be in the future"));
    // == when new start is after current time stamp
    // === when to_be_collected is positive
    az_airdrop = with_to_be_collected(&az_airdrop, 1);
    let result = az_airdrop.update_config(
        django(),
        current_timestamp,
        None,
        Some(current_timestamp + 1),
        None,
        None,
        None,
    );
    assert_eq!(result, unprocessable("to_be_collected must be zero when changing start time"));
    // === when to_be_collected is zero
    az_airdrop = with_to_be_collected(&az_airdrop, 0);
    az_airdrop
        .update_config(
            django(),
            current_timestamp,
            None,
            Some(current_timestamp + 1),
            None,
            None,
            None,
        )
        .unwrap();
    let mut config: Config = az_airdrop.config();
    assert_eq!(config.start, current_timestamp + 1);
    // = when new default_collectable_at_tge_percentage is provided
    // == when airdrop calculation variable combination is invalid
    let result =
        az_airdrop.update_config(django(), current_timestamp, None, None, Some(50), None, None);
    assert_eq!(
        result,
        unprocessable(
            "vesting_duration must be greater than 0 when collectable_tge_percentage is not 100"
        )
    );
    // == when combination of start, cliff_duration and vesting_duration exceeds Timestamp max
    let result = az_airdrop.update_config(
        django(),
        current_timestamp,
        None,
        None,
        Some(50),
        Some((Timestamp::MAX / 2) - az_airdrop.config().start + 2),
        Some(Timestamp::MAX / 2),
    );
    assert_eq!(
        result,
        unprocessable("Combination of start, cliff_duration and vesting_duration exceeds limit")
    );
    // a refused change leaves the settings as they were
    assert_eq!(az_airdrop.config(), config);
    // == when airdrop calculation variable combination is valid
    az_airdrop
        .update_config(django(), current_timestamp, None, None, Some(50), Some(50), Some(50))
        .unwrap();
    config = az_airdrop.config();
    assert_eq!(config.default_collectable_at_tge_percentage, 50);
    assert_eq!(config.default_cliff_duration, 50);
    assert_eq!(config.default_vesting_duration, 50);
    // when called by non-admin
    let result =
        az_airdrop.update_config(charlie(), current_timestamp, None, None, None, None, None);
    assert_eq!(result, Err(AzAirdropError::Unauthorised));
    // the admin that was is no admin any more
    let result = az_airdrop.update_config(bob(), current_timestamp, None, None, None, None, None);
    assert_eq!(result, Err(AzAirdropError::Unauthorised));
}

#[test]
fn test_update_config_start_needs_nothing_owed() {
    let mut az_airdrop = init();
    az_airdrop.recipient_add(bob(), 0, 7, alice(), 7, None, None, None, None).unwrap();
    // while something is owed the start stays
    let result = az_airdrop.update_config(bob(), 10, None, Some(11), None, None, None);
    assert_eq!(result, unprocessable("to_be_collected must be zero when changing start time"));
    assert_eq!(az_airdrop.config().start, MOCK_START);
    // a start that is not in the future is refused before that
    let result = az_airdrop.update_config(bob(), 10, None, Some(10), None, None, None);
    assert_eq!(result, unprocessable("New start time must be in the future"));
    // a refused change changes no admin either
    let result = az_airdrop.update_config(bob(), 10, Some(charlie()), Some(10), None, None, None);
    assert_eq!(result, unprocessable("New start time must be in the future"));
    assert_eq!(az_airdrop.config().admin, bob());
    // once nothing is owed the start moves, also when the window was open
    az_airdrop.collect(alice(), MOCK_START, Ok(())).unwrap();
    assert_eq!(az_airdrop.config().to_be_collected, 0);
    let now = MOCK_START + 5;
    az_airdrop.update_config(bob(), now, None, Some(now + 1), None, None, None).unwrap();
    assert_eq!(az_airdrop.config().start, now + 1);
    assert_eq!(az_airdrop.airdrop_has_not_started(now), Ok(()));
}

#[test]
fn test_update_recipient() {
    let mut az_airdrop = init();
    let recipient = django();
    // when called by an admin or sub-admin
    // = when airdrop has started
    let mut result = az_airdrop.update_recipient(bob(), MOCK_START, recipient, None, None, None);
    assert_eq!(result, unprocessable("Airdrop has started"));
    // = when airdrop has not started
    // == when recipient does not exist
    result = az_airdrop.update_recipient(bob(), MOCK_START - 1, recipient, None, None, None);
    assert_eq!(result, not_found());
    // == when recipient exists
    az_airdrop = with_recipient(
        &az_airdrop,
        recipient,
        Recipient {
            total_amount: 5,
            collected: 0,
            collectable_at_tge_percentage: 0,
            cliff_duration: 0,
            vesting_duration: 0,
        },
    );
    // == it updates the provided fields
    az_airdrop
        .update_recipient(bob(), MOCK_START - 1, recipient, Some(5), Some(5), Some(5))
        .unwrap();
    let updated_recipient: Recipient = az_airdrop.show(recipient).unwrap();
    assert_eq!(
        updated_recipient,
        Recipient {
            total_amount: 5,
            collected: 0,
            collectable_at_tge_percentage: 5,
            cliff_duration: 5,
            vesting_duration: 5
        }
    );
    // === when recipient's collectable_at_tge_percentage is greater than 100
    result = az_airdrop.update_recipient(bob(), MOCK_START - 1, recipient, Some(101), None, None);
    assert_eq!(
        result,
        unprocessable("collectable_at_tge_percentage must be less than or equal to 100")
    );
    // === when recipient's collectable_at_tge_percentage is 100
    // ==== when cliff_duration or vesting_duration is positive
    result =
        az_airdrop.update_recipient(bob(), MOCK_START - 1, recipient, Some(100), Some(1), Some(0));
    assert_eq!(
        result,
        unprocessable(
            "cliff_duration and vesting_duration must be 0 when collectable_tge_percentage is 100"
        )
    );
    result =
        az_airdrop.update_recipient(bob(), MOCK_START - 1, recipient, Some(100), Some(0), Some(1));
    assert_eq!(
        result,
        unprocessable(
            "cliff_duration and vesting_duration must be 0 when collectable_tge_percentage is 100"
        )
    );
    // === when recipient's collectable_at_tge_percentage is less than 100
    // ==== when vesting_duration is zero
    result = az_airdrop.update_recipient(bob(), MOCK_START - 1, recipient, Some(0), None, Some(0));
    assert_eq!(
        result,
        unprocessable(
            "vesting_duration must be greater than 0 when collectable_tge_percentage is not 100"
        )
    );
    // a refused change leaves the record as it was
    assert_eq!(az_airdrop.show(recipient).unwrap(), updated_recipient);
    // when called by non-admin or non-sub-admin
    result = az_airdrop.update_recipient(charlie(), MOCK_START - 1, recipient, None, None, None);
    assert_eq!(result, Err(AzAirdropError::Unauthorised));
}

#[test]
fn test_show() {
    let mut az_airdrop = init();
    assert_eq!(az_airdrop.show(alice()), not_found());
    az_airdrop.recipient_add(bob(), 0, 3, alice(), 3, None, None, None, None).unwrap();
    assert_eq!(
        az_airdrop.show(alice()),
        Ok(Recipient {
            total_amount: 3,
            collected: 0,
            collectable_at_tge_percentage: 100,
            cliff_duration: 0,
            vesting_duration: 0,
        })
    );
}

#[test]
fn test_authorise() {
    assert_eq!(AzAirdrop::authorise(alice(), alice()), Ok(()));
    assert_eq!(AzAirdrop::authorise(alice(), bob()), Err(AzAirdropError::Unauthorised));
    // two accounts that differ in their last byte only are two accounts
    let mut bytes = [7u8; 32];
    let one = AccountId::from_bytes(bytes);
    bytes[31] = 8;
    let other = AccountId::from_bytes(bytes);
    assert_eq!(AzAirdrop::authorise(one, other), Err(AzAirdropError::Unauthorised));
    assert_eq!(AzAirdrop::authorise(one, AccountId::from_bytes([7u8; 32])), Ok(()));
}

#[test]
fn test_airdrop_has_not_started() {
    let az_airdrop = init();
    assert_eq!(az_airdrop.airdrop_has_not_started(MOCK_START - 1), Ok(()));
    assert_eq!(az_airdrop.airdrop_has_not_started(MOCK_START), unprocessable("Airdrop has started"));
    assert_eq!(
        az_airdrop.airdrop_has_not_started(MOCK_START + 1),
        unprocessable("Airdrop has started")
    );
}

#[test]
fn test_restore() {
    let mut az_airdrop = init();
    az_airdrop.sub_admins_add(bob(), charlie()).unwrap();
    az_airdrop.recipient_add(charlie(), 0, 9, alice(), 4, None, None, None, None).unwrap();
    az_airdrop.recipient_add(charlie(), 0, 9, django(), 5, None, None, None, None).unwrap();
    // what a ledger hands out makes the same ledger again
    let restored = AzAirdrop::restore(az_airdrop.config(), az_airdrop.recipients()).unwrap();
    assert_eq!(restored.config(), az_airdrop.config());
    assert_eq!(restored.recipients(), az_airdrop.recipients());
    assert_eq!(restored.show(django()), az_airdrop.show(django()));
    // an address with two records
    let mut entries = az_airdrop.recipients();
    entries.push(entries[0]);
    assert!(AzAirdrop::restore(az_airdrop.config(), entries).is_none());
    // a sub-admin listed twice
    let mut config = az_airdrop.config();
    config.sub_admins.push(charlie());
    assert!(AzAirdrop::restore(config, az_airdrop.recipients()).is_none());
    // a record that unlocks more than its total
    let mut entries = az_airdrop.recipients();
    entries[1].1.collectable_at_tge_percentage = 101;
    assert!(AzAirdrop::restore(az_airdrop.config(), entries).is_none());
    // a default schedule that is not valid
    let mut config = az_airdrop.config();
    config.default_vesting_duration = 1;
    assert!(AzAirdrop::restore(config, az_airdrop.recipients()).is_none());
}
