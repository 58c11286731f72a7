use keyutils::{Permission, KEY_ALL_BITS};

#[test]
fn sets_of_permissions() {
    assert_eq!(Permission::empty().bits(), 0);
    assert_eq!(Permission::all().bits(), 0x3f3f_3f3f);
    assert_eq!(KEY_ALL_BITS, 0x3f3f_3f3f);
    assert!(Permission::empty().is_empty());
    assert!(!Permission::all().is_empty());
    assert!(Permission::all().is_all());
    assert!(!Permission::USER_ALL().is_all());
    assert_eq!(
        Permission::POSSESSOR_ALL()
            | Permission::USER_ALL()
            | Permission::GROUP_ALL()
            | Permission::OTHER_ALL(),
        Permission::all()
    );
    assert_eq!(
        Permission::USER_VIEW()
            | Permission::USER_READ()
            | Permission::USER_WRITE()
            | Permission::USER_SEARCH()
            | Permission::USER_LINK()
            | Permission::USER_SET_ATTRIBUTE(),
        Permission::USER_ALL()
    );
}

#[test]
fn masks_with_undefined_bits() {
    assert_eq!(Permission::from_bits(0x3f01_0000).unwrap().bits(), 0x3f01_0000);
    assert_eq!(Permission::from_bits(0), Some(Permission::empty()));
    assert!(Permission::from_bits(0x40).is_none());
    assert!(Permission::from_bits(0x8000_0000).is_none());
    assert!(Permission::from_bits(0xffff_ffff).is_none());
    assert_eq!(Permission::from_bits_truncate(0xffff_ffff), Permission::all());
    assert_eq!(Permission::from_bits_truncate(0x40), Permission::empty());
    assert_eq!(
        Permission::from_bits_truncate(0xc1c1_c1c1).bits(),
        0x0101_0101
    );
}

#[test]
fn operations_on_sets() {
    let user = Permission::USER_ALL();
    let read = Permission::USER_READ() | Permission::POSSESSOR_READ();
    assert_eq!((user & read), Permission::USER_READ());
    assert_eq!((user - read).bits(), 0x003d_0000);
    assert_eq!((user ^ read).bits(), 0x023d_0000);
    assert_eq!((!user).bits(), 0x3f00_3f3f);
    assert_eq!(!Permission::all(), Permission::empty());
    assert_eq!(!Permission::empty(), Permission::all());
    assert!(user.contains(Permission::USER_READ()));
    assert!(!user.contains(read));
    assert!(user.contains(Permission::empty()));
    assert!(user.intersects(read));
    assert!(!user.intersects(Permission::GROUP_ALL()));

    let mut perms = Permission::empty();
    perms.insert(Permission::OTHER_VIEW());
    perms.insert(Permission::GROUP_LINK());
    assert_eq!(perms.bits(), 0x0000_1001);
    perms.remove(Permission::OTHER_ALL());
    assert_eq!(perms, Permission::GROUP_LINK());
    perms.toggle(Permission::GROUP_ALL());
    assert_eq!(perms.bits(), 0x0000_2f00);
    perms.set(Permission::POSSESSOR_SEARCH(), true);
    assert_eq!(perms.bits(), 0x0800_2f00);
    perms.set(Permission::GROUP_ALL(), false);
    assert_eq!(perms, Permission::POSSESSOR_SEARCH());
}

#[test]
fn the_sets_do_not_touch_each_other() {
    let zones = [
        Permission::POSSESSOR_ALL(),
        Permission::USER_ALL(),
        Permission::GROUP_ALL(),
        Permission::OTHER_ALL(),
    ];
    for (at, zone) in zones.iter().enumerate() {
        for (other_at, other) in zones.iter().enumerate() {
            if at != other_at {
                assert!(!zone.intersects(*other));
            }
        }
    }
    // Taking reading from the user leaves it with the possessor.
    let mut perms = Permission::all();
    perms.remove(Permission::USER_READ());
    assert!(perms.contains(Permission::POSSESSOR_READ()));
    assert!(!perms.contains(Permission::USER_READ()));
    perms.remove(Permission::POSSESSOR_READ());
    assert!(!perms.contains(Permission::POSSESSOR_READ()));
    assert!(perms.contains(Permission::GROUP_READ() | Permission::OTHER_READ()));
}
