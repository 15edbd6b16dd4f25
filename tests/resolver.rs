use holochain_client::resolver::{get_base_role_name_from_clone_id, is_clone_id};
use holochain_client::{resolve, AppInfo, CellId, CellInfo, CloneCellId, ConductorApiError, RoleCells, ZomeCallTarget};

fn cell(tag: u8) -> CellId {
    let mut dna = vec![0x84, 0x2d, 0x24];
    dna.extend(std::iter::repeat(tag).take(36));
    let mut agent = vec![0x84, 0x20, 0x24];
    agent.extend(std::iter::repeat(tag.wrapping_add(100)).take(36));
    CellId::new(dna, agent)
}

fn topology() -> AppInfo {
    AppInfo {
        installed_app_id: "test-app".to_string(),
        agent_pub_key: cell(1).agent_pub_key,
        cell_info: vec![
            RoleCells {
                role_name: "foo".to_string(),
                cells: vec![
                    CellInfo::Provisioned { cell_id: cell(1) },
                    CellInfo::Cloned { cell_id: cell(2), clone_id: "foo.0".to_string() },
                    CellInfo::Cloned { cell_id: cell(3), clone_id: "foo.1".to_string() },
                ],
            },
            RoleCells { role_name: "empty".to_string(), cells: vec![CellInfo::Stem] },
        ],
    }
}

fn same(a: &CellId, b: &CellId) -> bool {
    a.dna_hash == b.dna_hash && a.agent_pub_key == b.agent_pub_key
}

#[test]
fn resolve_role_name_gives_provisioned_cell() {
    let r = resolve(&ZomeCallTarget::RoleName("foo".to_string()), &topology()).unwrap();
    assert!(same(&r, &cell(1)));
}

#[test]
fn resolve_clone_name_gives_cloned_cell() {
    let r = resolve(&ZomeCallTarget::RoleName("foo.0".to_string()), &topology()).unwrap();
    assert!(same(&r, &cell(2)));
    let r = resolve(&ZomeCallTarget::RoleName("foo.1".to_string()), &topology()).unwrap();
    assert!(same(&r, &cell(3)));
}

#[test]
fn resolve_missing_role_is_role_not_found() {
    let r = resolve(&ZomeCallTarget::RoleName("bar".to_string()), &topology());
    assert!(matches!(r, Err(ConductorApiError::RoleNotFound)));
    let r = resolve(&ZomeCallTarget::RoleName("bar.0".to_string()), &topology());
    assert!(matches!(r, Err(ConductorApiError::RoleNotFound)));
}

#[test]
fn resolve_missing_cell_is_cell_not_found() {
    let r = resolve(&ZomeCallTarget::RoleName("empty".to_string()), &topology());
    assert!(matches!(r, Err(ConductorApiError::CellNotFound)));
    let r = resolve(&ZomeCallTarget::RoleName("foo.7".to_string()), &topology());
    assert!(matches!(r, Err(ConductorApiError::CellNotFound)));
}

#[test]
fn resolve_cell_id_is_unchanged() {
    let r = resolve(&ZomeCallTarget::CellId(cell(9)), &topology()).unwrap();
    assert!(same(&r, &cell(9)));
    let r = resolve(&ZomeCallTarget::CloneId(CloneCellId::CellId(cell(8))), &topology()).unwrap();
    assert!(same(&r, &cell(8)));
}

#[test]
fn resolve_clone_by_index() {
    let id = CloneCellId::by_index(&"foo".to_string(), 1);
    match &id {
        CloneCellId::CloneId(s) => assert_eq!(s, "foo.1"),
        _ => panic!("expected a clone id"),
    }
    let r = resolve(&ZomeCallTarget::CloneId(id), &topology()).unwrap();
    assert!(same(&r, &cell(3)));
    let id = CloneCellId::by_index(&"foo".to_string(), 12);
    match &id {
        CloneCellId::CloneId(s) => assert_eq!(s, "foo.12"),
        _ => panic!("expected a clone id"),
    }
    let r = resolve(&ZomeCallTarget::CloneId(id), &topology());
    assert!(matches!(r, Err(ConductorApiError::CellNotFound)));
}

#[test]
fn clone_names_and_base_roles() {
    assert!(is_clone_id("foo.0"));
    assert!(!is_clone_id("foo"));
    assert_eq!(get_base_role_name_from_clone_id("foo.0"), "foo");
    assert_eq!(get_base_role_name_from_clone_id("a.b.c"), "a");
    assert_eq!(get_base_role_name_from_clone_id("plain"), "plain");
}

#[test]
fn topology_membership() {
    let t = topology();
    assert!(t.has_cell(&cell(1)));
    assert!(t.has_cell(&cell(3)));
    assert!(!t.has_cell(&cell(4)));
}
