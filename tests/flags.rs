use datrope::flags::{ApplicationFlag, ApplicationFlags, GatewayIntents, Permission, Permissions};
use datrope::json::{number, parse_u64, render_text, u64_text};
use datrope::objects::audit_log::AuditLogEvent;
use datrope::objects::interactions::InteractionType;

#[test]
fn flags() {
    let flags = ApplicationFlags::from_flags(&vec![
        ApplicationFlag::ApplicationAutoModerationRuleCreateBadge,
        ApplicationFlag::GatewayPresence,
    ]);
    let serialized = render_text(&number(flags.bits()));
    assert_eq!("4160", serialized);
    let deserialized = ApplicationFlags::from_bits(parse_u64(&serialized).unwrap());
    assert_eq!(flags, deserialized);
}

#[test]
fn permissions() {
    let permissions_to_check = [
        ("0", Permissions::from_flags(&vec![])),
        ("1", Permissions::from_flags(&vec![Permission::CreateInstantInvite])),
        ("2", Permissions::from_flags(&vec![Permission::KickMembers])),
        ("3", Permissions::from_flags(&vec![Permission::CreateInstantInvite, Permission::KickMembers])),
        ("4", Permissions::from_flags(&vec![Permission::BanMembers])),
        ("5", Permissions::from_flags(&vec![Permission::BanMembers, Permission::CreateInstantInvite])),
        ("6", Permissions::from_flags(&vec![Permission::BanMembers, Permission::KickMembers])),
        (
            "7",
            Permissions::from_flags(&vec![Permission::BanMembers, Permission::CreateInstantInvite, Permission::KickMembers]),
        ),
    ];
    for (expected_serialization, permissions) in permissions_to_check {
        let serialized = render_text(&number(permissions.bits()));
        assert_eq!(expected_serialization, serialized);
        let deserialized = Permissions::from_bits(parse_u64(&serialized).unwrap());
        assert_eq!(permissions, deserialized);
    }
}

#[test]
fn unknown_bits_are_dropped() {
    let intents = GatewayIntents::from_bits((1 << 17) | (1 << 0) | (1 << 63));
    assert_eq!(1, intents.bits());
    let all = Permissions::from_bits(u64::MAX);
    assert!(all.contains(Permission::SendPolls));
    assert_eq!(0, all.bits() & (1 << 47));
}

#[test]
fn insert_and_contains() {
    let mut f = ApplicationFlags::empty();
    assert!(!f.contains(ApplicationFlag::Embedded));
    f.insert(ApplicationFlag::Embedded);
    assert!(f.contains(ApplicationFlag::Embedded));
    assert_eq!(1 << 17, f.bits());
}

#[test]
fn decimal_text() {
    assert_eq!("0", u64_text(0));
    assert_eq!("18446744073709551615", u64_text(u64::MAX));
    assert_eq!(Some(u64::MAX), parse_u64("18446744073709551615"));
    assert_eq!(None, parse_u64("18446744073709551616"));
    assert_eq!(None, parse_u64(""));
    assert_eq!(None, parse_u64("1.5"));
    assert_eq!(Some(41250), parse_u64("41250"));
}

#[test]
fn wire_codes() {
    assert_eq!(Some(AuditLogEvent::HomeSettingsUpdate), AuditLogEvent::from_code(191));
    assert_eq!(None, AuditLogEvent::from_code(2));
    assert_eq!(72, AuditLogEvent::MessageDelete.code());
    assert_eq!(Some(InteractionType::ModalSubmit), InteractionType::from_code(5));
}
