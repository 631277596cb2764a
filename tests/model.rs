use ruiden::model::{resolve, ID};
use ruiden::register::Register;

#[test]
fn resolve_rd6018() {
    assert_eq!(resolve(60181), (ID::RD6018, 100, 100));
    assert_eq!(ID::from_identity(60181), ID::RD6018);
}

#[test]
fn resolve_unknown_identity() {
    for identity in [0u16, 1, 60180, 60182, 60062, u16::MAX] {
        assert_eq!(resolve(identity), (ID::Unknown, 0, 0));
    }
}

#[test]
fn multiplier_table() {
    let table = [
        (ID::RD6006, 100, 1000),
        (ID::RD6006P, 1000, 10000),
        (ID::RD6012, 100, 100),
        (ID::RD6012P, 1000, 100),
        (ID::RD6018, 100, 100),
        (ID::RD6024, 100, 100),
        (ID::Unknown, 0, 0),
    ];
    for (id, v_mul, i_mul) in table {
        assert_eq!(id.v_mul(), v_mul);
        assert_eq!(id.i_mul(), i_mul);
    }
}

#[test]
fn default_model_is_unknown() {
    assert_eq!(ID::default(), ID::Unknown);
}

#[test]
fn register_addresses() {
    assert_eq!(Register::ID.address(), 0);
    assert_eq!(Register::SN_H.address(), 1);
    assert_eq!(Register::SN_L.address(), 2);
    assert_eq!(Register::FW.address(), 3);
    assert_eq!(Register::INT_C_S.address(), 4);
    assert_eq!(Register::V_SET.address(), 8);
    assert_eq!(Register::I_OUT.address(), 11);
    assert_eq!(Register::I_RANGE.address(), 20);
    assert_eq!(Register::EXT_C_S.address(), 34);
    assert_eq!(Register::EXT_F.address(), 37);
    assert_eq!(Register::WH_L.address(), 41);
}

#[test]
fn register_pairs_are_adjacent() {
    let pairs = [
        (Register::SN_H, Register::SN_L),
        (Register::INT_C_S, Register::INT_C),
        (Register::INT_F_S, Register::INT_F),
        (Register::EXT_C_S, Register::EXT_C),
        (Register::EXT_F_S, Register::EXT_F),
        (Register::AH_H, Register::AH_L),
        (Register::WH_H, Register::WH_L),
    ];
    for (high, low) in pairs {
        assert_eq!(high.address() + 1, low.address());
    }
}
