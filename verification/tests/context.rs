use agave_feature_set::FeatureSet;
use mollusk_fixture::context::{compute_budget_or_default, hash_proto_context_fields, AccountMeta, Context, ProtoContext};
use mollusk_fixture::instr_account::ProtoInstrAccount;
use solana_account::Account;
use solana_compute_budget::compute_budget::ComputeBudget;
use solana_keccak_hasher::Hasher;
use solana_pubkey::Pubkey;

fn feature_set_with(features: &[Pubkey]) -> FeatureSet {
    let mut feature_set = FeatureSet::default();
    for id in features {
        feature_set.activate(id, 0);
    }
    feature_set
}

fn empty_proto_context() -> ProtoContext<()> {
    ProtoContext {
        compute_budget: None,
        feature_set: None,
        sysvars: None,
        program_id: vec![0u8; 32],
        instr_accounts: vec![],
        data: vec![],
        accounts: vec![],
    }
}

fn account(lamports: u64) -> Account {
    Account {
        lamports,
        data: vec![],
        owner: Pubkey::new_from_array([9u8; 32]),
        executable: false,
        rent_epoch: u64::MAX,
    }
}

fn key(b: u8) -> Pubkey {
    Pubkey::new_from_array([b; 32])
}

#[test]
fn test_defaults_use_feature_flag_when_active() {
    let mut proto = empty_proto_context();
    proto.feature_set = Some(feature_set_with(&[
        agave_feature_set::raise_cpi_nesting_limit_to_8::id(),
        agave_feature_set::increase_cpi_account_info_limit::id(),
    ]));

    let ctx = Context::from_proto(proto);
    let expected = ComputeBudget::new_with_defaults(true, false);
    assert_eq!(ctx.compute_budget, expected);
}

#[test]
fn test_defaults_use_feature_flag_when_inactive() {
    let proto = empty_proto_context();
    let ctx = Context::from_proto(proto);
    let expected = ComputeBudget::new_with_defaults(false, false);
    assert_eq!(ctx.compute_budget, expected);
}

#[test]
fn test_present_compute_budget_is_passthrough() {
    let mut proto = empty_proto_context();
    let cb = ComputeBudget {
        compute_unit_limit: 12345,
        ..ComputeBudget::new_with_defaults(false, false)
    };
    proto.compute_budget = Some(cb);

    // Whether the feature is present or not should not affect passthrough
    proto.feature_set = Some(feature_set_with(&[
        agave_feature_set::raise_cpi_nesting_limit_to_8::id(),
        agave_feature_set::increase_cpi_account_info_limit::id(),
    ]));

    let ctx = Context::from_proto(proto);
    assert_eq!(ctx.compute_budget.compute_unit_limit, 12345);
}

#[test]
fn default_budget_differs_with_the_nesting_feature() {
    let active = feature_set_with(&[agave_feature_set::raise_cpi_nesting_limit_to_8::id()]);
    let inactive = feature_set_with(&[agave_feature_set::increase_cpi_account_info_limit::id()]);
    let with = compute_budget_or_default(None, &active);
    let without = compute_budget_or_default(None, &inactive);
    assert_eq!(with, ComputeBudget::new_with_defaults(true, false));
    assert_eq!(without, ComputeBudget::new_with_defaults(false, false));
    assert_ne!(with.max_instruction_stack_depth, without.max_instruction_stack_depth);
}

#[test]
fn missing_feature_set_is_the_default_one() {
    let ctx = Context::from_proto(empty_proto_context());
    assert_eq!(ctx.feature_set, FeatureSet::default());
    assert!(ctx.feature_set.active().is_empty());
}

#[test]
fn given_feature_set_is_kept() {
    let features = feature_set_with(&[agave_feature_set::increase_cpi_account_info_limit::id()]);
    let mut proto = empty_proto_context();
    proto.feature_set = Some(features.clone());
    let ctx = Context::from_proto(proto);
    assert_eq!(ctx.feature_set, features);
}

#[test]
fn sysvars_default_when_missing_and_kept_when_given() {
    let proto: ProtoContext<u64> = ProtoContext {
        compute_budget: None,
        feature_set: None,
        sysvars: None,
        program_id: vec![0u8; 32],
        instr_accounts: vec![],
        data: vec![],
        accounts: vec![],
    };
    assert_eq!(Context::from_proto(proto).sysvars, 0u64);
    let proto: ProtoContext<u64> = ProtoContext {
        compute_budget: None,
        feature_set: None,
        sysvars: Some(77),
        program_id: vec![0u8; 32],
        instr_accounts: vec![],
        data: vec![],
        accounts: vec![],
    };
    assert_eq!(Context::from_proto(proto).sysvars, 77u64);
}

#[test]
fn program_id_is_decoded_from_its_bytes() {
    let bytes: Vec<u8> = (0u8..32).collect();
    let mut proto = empty_proto_context();
    proto.program_id = bytes.clone();
    let ctx = Context::from_proto(proto);
    assert_eq!(ctx.program_id.to_bytes().to_vec(), bytes);
    let back = ctx.into_proto();
    assert_eq!(back.program_id, bytes);
}

#[test]
fn instruction_accounts_resolve_to_addresses() {
    let mut proto = empty_proto_context();
    proto.accounts = vec![(key(1), account(10)), (key(2), account(20)), (key(3), account(30))];
    proto.instr_accounts = vec![
        ProtoInstrAccount { index: 2, is_signer: true, is_writable: false },
        ProtoInstrAccount { index: 0, is_signer: false, is_writable: true },
    ];
    proto.data = vec![4, 5, 6];
    let ctx = Context::from_proto(proto);
    assert_eq!(
        ctx.instruction_accounts,
        vec![
            AccountMeta { pubkey: key(3), is_signer: true, is_writable: false },
            AccountMeta { pubkey: key(1), is_signer: false, is_writable: true },
        ]
    );
    assert_eq!(ctx.instruction_data, vec![4, 5, 6]);
    assert_eq!(ctx.accounts.len(), 3);
    assert_eq!(ctx.accounts[1].1.lamports, 20);
}

#[test]
fn into_proto_names_the_first_account_with_the_address() {
    let ctx: Context<()> = Context {
        compute_budget: ComputeBudget::new_with_defaults(false, false),
        feature_set: FeatureSet::default(),
        sysvars: (),
        program_id: key(7),
        instruction_accounts: vec![
            AccountMeta { pubkey: key(2), is_signer: false, is_writable: true },
            AccountMeta { pubkey: key(1), is_signer: true, is_writable: true },
        ],
        instruction_data: vec![1],
        accounts: vec![(key(1), account(1)), (key(2), account(2)), (key(2), account(3))],
    };
    let proto = ctx.into_proto();
    assert_eq!(
        proto.instr_accounts,
        vec![
            ProtoInstrAccount { index: 1, is_signer: false, is_writable: true },
            ProtoInstrAccount { index: 0, is_signer: true, is_writable: true },
        ]
    );
    assert!(proto.compute_budget.is_some());
    assert!(proto.feature_set.is_some());
    assert_eq!(proto.sysvars, Some(()));
    assert_eq!(proto.data, vec![1]);
    assert_eq!(proto.program_id, vec![7u8; 32]);
}

#[test]
fn fixture_round_trip_keeps_instruction_accounts() {
    let mut proto = empty_proto_context();
    proto.accounts = vec![(key(1), account(1)), (key(2), account(2))];
    proto.instr_accounts = vec![
        ProtoInstrAccount { index: 1, is_signer: true, is_writable: true },
        ProtoInstrAccount { index: 0, is_signer: false, is_writable: false },
        ProtoInstrAccount { index: 1, is_signer: false, is_writable: true },
    ];
    let original = proto.instr_accounts.clone();
    let back = Context::from_proto(proto).into_proto();
    assert_eq!(back.instr_accounts, original);
}

#[test]
fn fixture_round_trip_moves_duplicate_addresses_to_the_first() {
    let mut proto = empty_proto_context();
    proto.accounts = vec![(key(1), account(1)), (key(1), account(2))];
    proto.instr_accounts = vec![ProtoInstrAccount { index: 1, is_signer: false, is_writable: false }];
    let back = Context::from_proto(proto).into_proto();
    assert_eq!(back.instr_accounts[0].index, 0);
}

#[test]
fn try_into_proto_refuses_an_unknown_address() {
    let ctx: Context<()> = Context {
        compute_budget: ComputeBudget::new_with_defaults(false, false),
        feature_set: FeatureSet::default(),
        sysvars: (),
        program_id: key(7),
        instruction_accounts: vec![AccountMeta { pubkey: key(5), is_signer: false, is_writable: false }],
        instruction_data: vec![],
        accounts: vec![(key(1), account(1))],
    };
    assert!(!ctx.account_keys_present());
    let back = ctx.try_into_proto();
    let ctx = back.err().expect("an unknown address is refused");
    assert_eq!(ctx.instruction_accounts[0].pubkey, key(5));
}

#[test]
fn try_into_proto_accepts_known_addresses() {
    let ctx: Context<()> = Context {
        compute_budget: ComputeBudget::new_with_defaults(false, false),
        feature_set: FeatureSet::default(),
        sysvars: (),
        program_id: key(7),
        instruction_accounts: vec![AccountMeta { pubkey: key(1), is_signer: true, is_writable: false }],
        instruction_data: vec![],
        accounts: vec![(key(0), account(0)), (key(1), account(1))],
    };
    assert!(ctx.account_keys_present());
    let proto = ctx.try_into_proto().ok().expect("known addresses are accepted");
    assert_eq!(proto.instr_accounts, vec![ProtoInstrAccount { index: 1, is_signer: true, is_writable: false }]);
}

#[test]
fn context_fields_fingerprint() {
    let mut proto = empty_proto_context();
    proto.program_id = vec![3u8; 32];
    proto.instr_accounts = vec![ProtoInstrAccount { index: 258, is_signer: true, is_writable: false }];
    proto.data = vec![0xaa, 0xbb];
    let mut hasher = Hasher::default();
    hash_proto_context_fields(&mut hasher, &proto);

    let mut bytes = vec![3u8; 32];
    bytes.extend_from_slice(&[2, 1, 0, 0, 1, 0, 0xaa, 0xbb]);
    assert_eq!(hasher.result(), solana_keccak_hasher::hash(&bytes));
}

#[test]
fn try_from_proto_refuses_a_short_program_id() {
    let mut proto = empty_proto_context();
    proto.program_id = vec![1u8; 31];
    assert!(!proto.is_decodable());
    let back = Context::try_from_proto(proto).err().expect("a short program id is refused");
    assert_eq!(back.program_id, vec![1u8; 31]);
}

#[test]
fn try_from_proto_refuses_an_index_out_of_range() {
    let mut proto = empty_proto_context();
    proto.accounts = vec![(key(1), account(1))];
    proto.instr_accounts = vec![ProtoInstrAccount { index: 1, is_signer: false, is_writable: false }];
    assert!(!proto.is_decodable());
    let back = Context::try_from_proto(proto).err().expect("an index out of range is refused");
    assert_eq!(back.instr_accounts[0].index, 1);
}

#[test]
fn try_from_proto_decodes_a_valid_fixture() {
    let mut proto = empty_proto_context();
    proto.accounts = vec![(key(1), account(1)), (key(2), account(2))];
    proto.instr_accounts = vec![ProtoInstrAccount { index: 1, is_signer: true, is_writable: false }];
    assert!(proto.is_decodable());
    let ctx = Context::try_from_proto(proto).ok().expect("a valid fixture decodes");
    assert_eq!(
        ctx.instruction_accounts,
        vec![AccountMeta { pubkey: key(2), is_signer: true, is_writable: false }]
    );
}

#[test]
fn decode_encode_reaches_a_fixed_point() {
    let mut proto = empty_proto_context();
    proto.accounts = vec![(key(1), account(1)), (key(2), account(2)), (key(1), account(3))];
    proto.instr_accounts = vec![
        ProtoInstrAccount { index: 2, is_signer: true, is_writable: true },
        ProtoInstrAccount { index: 1, is_signer: false, is_writable: true },
    ];
    let once = Context::from_proto(proto).into_proto();
    assert_eq!(once.instr_accounts[0].index, 0);
    assert_eq!(once.instr_accounts[1].index, 1);
    let expected = once.instr_accounts.clone();
    let twice = Context::from_proto(once).into_proto();
    assert_eq!(twice.instr_accounts, expected);
}
