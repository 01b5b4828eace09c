use lumenforge::factory::{deploy_factory, Effect, Error, LumenVaultFactory, VaultDeployed, VaultDeployment};
use lumenforge::vault::deploy;

const OWNER: &str = "GOWNERAAAAAAAAAAAAAAAAAAAAAAAAAAAAAAAAAAAAAAAAAAAAAAAAAA";
const OWNER_B: &str = "GOWNERBBBBBBBBBBBBBBBBBBBBBBBBBBBBBBBBBBBBBBBBBBBBBBBBBB";
const TOKEN: &str = "CTOKENAAAAAAAAAAAAAAAAAAAAAAAAAAAAAAAAAAAAAAAAAAAAAAAAAA";

fn s(x: &str) -> String {
    x.to_string()
}

fn factory() -> LumenVaultFactory {
    deploy_factory([10u8; 32])
}

/// The factory's side of a deployment: authorize and describe it, let the
/// host place the vault at `address`, record it.
fn deploy_at(f: &mut LumenVaultFactory, owner: &str, salt: [u8; 32], address: &str) -> (VaultDeployment, String) {
    let mut fx = Vec::new();
    let d = f.deploy_vault(s(owner), s(TOKEN), 0, None, salt, &mut fx).unwrap();
    let addr = f.record_deployment(s(owner), s(address), &mut fx);
    (d, addr)
}

#[test]
fn deploy_vault_and_track_ownership() {
    let mut factory = factory();
    let salt = [0u8; 32];

    let (deployment, vault_address) = deploy_at(&mut factory, OWNER, salt, "CVAULT0");
    assert_eq!(deployment.wasm_hash, [10u8; 32]);
    assert_eq!(deployment.salt, salt);

    assert_eq!(factory.vault_count(), 1);
    assert_eq!(factory.vaults_by_owner(s(OWNER), 0, 10), vec![vault_address.clone()]);

    let vault_client = deploy(deployment.owner, deployment.token, deployment.min_deposit, deployment.max_balance);
    assert_eq!(vault_client.owner(), Ok(s(OWNER)));
    assert_eq!(vault_client.token(), s(TOKEN));
    assert_eq!(vault_client.balance(), 0);
}

#[test]
fn multiple_owners_get_independent_vaults() {
    let mut factory = factory();
    deploy_at(&mut factory, OWNER, [1u8; 32], "CVAULT1");
    deploy_at(&mut factory, OWNER_B, [2u8; 32], "CVAULT2");

    assert_eq!(factory.vault_count(), 2);
    assert_eq!(factory.vaults_by_owner(s(OWNER), 0, 10).len(), 1);
    assert_eq!(factory.vaults_by_owner(s(OWNER_B), 0, 10).len(), 1);
}

#[test]
fn vaults_by_owner_paginates() {
    let mut factory = factory();
    for i in 0..5u8 {
        let mut salt_bytes = [0u8; 32];
        salt_bytes[0] = i;
        deploy_at(&mut factory, OWNER, salt_bytes, &format!("CVAULT{}", i));
    }

    assert_eq!(factory.vaults_by_owner(s(OWNER), 0, 2).len(), 2);
    assert_eq!(factory.vaults_by_owner(s(OWNER), 2, 2).len(), 2);
    assert_eq!(factory.vaults_by_owner(s(OWNER), 4, 2).len(), 1);
    assert_eq!(factory.vaults_by_owner(s(OWNER), 10, 2).len(), 0);
    assert_eq!(factory.vaults_by_owner(s(OWNER), 0, 100).len(), 5);
}

#[test]
fn extend_ttl_functions_do_not_panic() {
    let mut factory = factory();
    deploy_at(&mut factory, OWNER, [9u8; 32], "CVAULT9");
    assert_eq!(factory.extend_vaults_by_owner_ttl(s(OWNER)), Ok(()));
}

#[test]
fn extend_vaults_by_owner_ttl_without_vaults_fails() {
    let factory = factory();
    let result = factory.extend_vaults_by_owner_ttl(s(OWNER));
    assert_eq!(result, Err(Error::NoVaultsForOwner));
}

// Further cases.

#[test]
fn pages_list_vaults_in_deployment_order() {
    let mut factory = factory();
    for i in 0..5u8 {
        deploy_at(&mut factory, OWNER, [i; 32], &format!("CVAULT{}", i));
    }
    assert_eq!(factory.vaults_by_owner(s(OWNER), 1, 3), vec![s("CVAULT1"), s("CVAULT2"), s("CVAULT3")]);
    assert_eq!(factory.vaults_by_owner(s(OWNER), 3, u32::MAX), vec![s("CVAULT3"), s("CVAULT4")]);
    assert_eq!(factory.vaults_by_owner(s(OWNER_B), 0, 10), Vec::<String>::new());
}

#[test]
fn deploying_needs_the_owners_authorization_and_announces_the_vault() {
    let mut factory = factory();
    let mut fx = Vec::new();
    let d = factory.deploy_vault(s(OWNER), s(TOKEN), 5, Some(50), [3u8; 32], &mut fx).unwrap();
    assert_eq!(
        d,
        VaultDeployment {
            wasm_hash: [10u8; 32],
            salt: [3u8; 32],
            owner: s(OWNER),
            token: s(TOKEN),
            min_deposit: 5,
            max_balance: Some(50),
        }
    );
    assert_eq!(factory.record_deployment(s(OWNER), s("CVAULT3"), &mut fx), s("CVAULT3"));
    assert_eq!(
        fx,
        vec![
            Effect::RequireAuth(s(OWNER)),
            Effect::Publish(VaultDeployed { owner: s(OWNER), vault: s("CVAULT3") }),
        ]
    );
}

#[test]
fn factory_without_vault_code_is_not_initialized() {
    let factory = LumenVaultFactory { vault_wasm_hash: None, vault_count: None, vaults_by_owner: Vec::new() };
    let mut fx = Vec::new();
    assert_eq!(
        factory.deploy_vault(s(OWNER), s(TOKEN), 0, None, [0u8; 32], &mut fx),
        Err(Error::NotInitialized)
    );
    assert_eq!(factory.vault_wasm_hash(), Err(Error::NotInitialized));
    assert_eq!(factory.vault_count(), 0);
}

#[test]
fn vault_count_counts_every_recorded_deployment() {
    let mut factory = factory();
    deploy_at(&mut factory, OWNER, [1u8; 32], "CVAULT1");
    deploy_at(&mut factory, OWNER_B, [2u8; 32], "CVAULT2");
    deploy_at(&mut factory, OWNER, [3u8; 32], "CVAULT3");
    assert_eq!(factory.vault_count(), 3);
    assert_eq!(factory.vaults_by_owner(s(OWNER), 0, 10), vec![s("CVAULT1"), s("CVAULT3")]);
    assert_eq!(factory.vaults_by_owner(s(OWNER_B), 0, 10), vec![s("CVAULT2")]);
    assert_eq!(factory.vault_wasm_hash(), Ok([10u8; 32]));
}

#[test]
fn consecutive_pages_make_up_the_whole_list() {
    let mut factory = factory();
    for i in 0..7u8 {
        deploy_at(&mut factory, OWNER, [i; 32], &format!("CVAULT{}", i));
    }
    let mut joined = factory.vaults_by_owner(s(OWNER), 0, 3);
    joined.extend(factory.vaults_by_owner(s(OWNER), 3, 3));
    joined.extend(factory.vaults_by_owner(s(OWNER), 6, 3));
    assert_eq!(joined, factory.vaults_by_owner(s(OWNER), 0, 7));
    assert_eq!(joined.len(), 7);
}
