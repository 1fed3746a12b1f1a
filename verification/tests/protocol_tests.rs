use it8951::Command;
use it8951::Register;
use it8951::UserCommand;

#[test]
fn test_command_values() {
    assert_eq!(Command::SysRun.as_u16(), 0x0001);
    assert_eq!(Command::RegRead.as_u16(), 0x0010);
    assert_eq!(Command::LoadImage.as_u16(), 0x0020);
}

#[test]
fn test_command_from_u16() {
    assert_eq!(Command::from_u16(0x0001), Some(Command::SysRun));
    assert_eq!(Command::from_u16(0x0010), Some(Command::RegRead));
    assert_eq!(Command::from_u16(0xFFFF), None);
}

#[test]
fn test_user_command_values() {
    assert_eq!(UserCommand::DisplayArea.as_u16(), 0x0034);
    assert_eq!(UserCommand::GetDevInfo.as_u16(), 0x0302);
    assert_eq!(UserCommand::Vcom.as_u16(), 0x0039);
}

#[test]
fn test_user_command_from_u16() {
    assert_eq!(UserCommand::from_u16(0x0302), Some(UserCommand::GetDevInfo));
    assert_eq!(UserCommand::from_u16(0x0034), Some(UserCommand::DisplayArea));
    assert_eq!(UserCommand::from_u16(0xFFFF), None);
}

#[test]
fn test_command_roundtrip() {
    let commands = [
        Command::SysRun,
        Command::Standby,
        Command::Sleep,
        Command::RegRead,
        Command::MemBurstWrite,
        Command::LoadImage,
    ];

    for cmd in commands {
        let value = cmd.as_u16();
        let decoded = Command::from_u16(value);
        assert_eq!(decoded, Some(cmd));
    }
}

#[test]
fn test_command_roundtrip_all() {
    let commands = [
        Command::SysRun,
        Command::Standby,
        Command::Sleep,
        Command::RegRead,
        Command::RegWrite,
        Command::MemBurstReadTrigger,
        Command::MemBurstReadStart,
        Command::MemBurstWrite,
        Command::MemBurstEnd,
        Command::LoadImage,
        Command::LoadImageArea,
        Command::LoadImageEnd,
    ];
    for cmd in commands {
        assert_eq!(Command::from_u16(cmd.as_u16()), Some(cmd));
    }
}

#[test]
fn test_user_command_roundtrip() {
    let commands = [
        UserCommand::DisplayArea,
        UserCommand::GetDevInfo,
        UserCommand::DisplayBufArea,
        UserCommand::Vcom,
    ];
    for cmd in commands {
        assert_eq!(UserCommand::from_u16(cmd.as_u16()), Some(cmd));
    }
}

#[test]
fn test_register_addresses() {
    assert_eq!(Register::i80cpcr().addr(), 0x0004);
    assert_eq!(Register::lut0ewhr().addr(), 0x1000);
    assert_eq!(Register::lutafsr().addr(), 0x1224);
    assert_eq!(Register::lisar().addr(), 0x0208);
}

#[test]
fn test_register_creation() {
    let reg = Register::new(0x1234);
    assert_eq!(reg.addr(), 0x1234);
}

#[test]
fn test_register_equality() {
    assert_eq!(Register::i80cpcr(), Register::new(0x0004));
    assert_ne!(Register::i80cpcr(), Register::lut0ewhr());
}
