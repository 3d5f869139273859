//! The closed enumerations and bit sets of the protocol, with their byte
//! encodings.

use vstd::prelude::*;

verus! {
/// The major protocol version (the high nibble of the header's first byte).
#[derive(Debug, Clone, Copy, PartialEq, Eq, Structural)]
pub enum TacacsMajorVersion {
    TacacsPlusMajor1,
}

impl TacacsMajorVersion {
    /// The byte that stands for this value on the wire.
    pub open spec fn spec_to_u8(self) -> u8 {
        match self {
            TacacsMajorVersion::TacacsPlusMajor1 => 0xc,
        }
    }

    /// The value that byte `v` stands for, if any.
    pub open spec fn spec_from_u8(v: u8) -> Option<Self> {
        if v == 0xc {
            Some(TacacsMajorVersion::TacacsPlusMajor1)
        } else {
            None
        }
    }

    /// The human-readable protocol name of this value.
    pub open spec fn spec_name(self) -> &'static str {
        match self {
            TacacsMajorVersion::TacacsPlusMajor1 => "TACACS_PLUS_MAJOR_1",
        }
    }

    /// Decoding the byte of a value gives the value back.
    pub proof fn lemma_from_to(self)
        ensures
            Self::spec_from_u8(self.spec_to_u8()) == Some(self),
    {
    }

    /// The byte that stands for this value on the wire.
    pub fn to_u8(&self) -> (r: u8)
        ensures
            r == self.spec_to_u8(),
    {
        match self {
            TacacsMajorVersion::TacacsPlusMajor1 => 0xc,
        }
    }

    /// The value that byte `v` stands for, or `None` for a byte outside the enumeration.
    pub fn from_u8(v: u8) -> (r: Option<Self>)
        ensures
            r == Self::spec_from_u8(v),
    {
        if v == 0xc {
            Some(TacacsMajorVersion::TacacsPlusMajor1)
        } else {
            None
        }
    }

    /// The human-readable protocol name of this value.
    pub fn name(&self) -> (r: &'static str)
        ensures
            r@ == self.spec_name()@,
    {
        match self {
            TacacsMajorVersion::TacacsPlusMajor1 => "TACACS_PLUS_MAJOR_1",
        }
    }
}

/// The minor protocol version (the low nibble of the header's first byte).
#[derive(Debug, Clone, Copy, PartialEq, Eq, Structural)]
pub enum TacacsMinorVersion {
    TacacsPlusMinorVerDefault,
    TacacsPlusMinorVerOne,
}

impl TacacsMinorVersion {
    /// The byte that stands for this value on the wire.
    pub open spec fn spec_to_u8(self) -> u8 {
        match self {
            TacacsMinorVersion::TacacsPlusMinorVerDefault => 0x0,
            TacacsMinorVersion::TacacsPlusMinorVerOne => 0x1,
        }
    }

    /// The value that byte `v` stands for, if any.
    pub open spec fn spec_from_u8(v: u8) -> Option<Self> {
        if v == 0x0 {
            Some(TacacsMinorVersion::TacacsPlusMinorVerDefault)
        } else if v == 0x1 {
            Some(TacacsMinorVersion::TacacsPlusMinorVerOne)
        } else {
            None
        }
    }

    /// The human-readable protocol name of this value.
    pub open spec fn spec_name(self) -> &'static str {
        match self {
            TacacsMinorVersion::TacacsPlusMinorVerDefault => "TACACS_PLUS_MINOR_VER_DEFAULT",
            TacacsMinorVersion::TacacsPlusMinorVerOne => "TACACS_PLUS_MINOR_VER_ONE",
        }
    }

    /// Decoding the byte of a value gives the value back.
    pub proof fn lemma_from_to(self)
        ensures
            Self::spec_from_u8(self.spec_to_u8()) == Some(self),
    {
    }

    /// The byte that stands for this value on the wire.
    pub fn to_u8(&self) -> (r: u8)
        ensures
            r == self.spec_to_u8(),
    {
        match self {
            TacacsMinorVersion::TacacsPlusMinorVerDefault => 0x0,
            TacacsMinorVersion::TacacsPlusMinorVerOne => 0x1,
        }
    }

    /// The value that byte `v` stands for, or `None` for a byte outside the enumeration.
    pub fn from_u8(v: u8) -> (r: Option<Self>)
        ensures
            r == Self::spec_from_u8(v),
    {
        if v == 0x0 {
            Some(TacacsMinorVersion::TacacsPlusMinorVerDefault)
        } else if v == 0x1 {
            Some(TacacsMinorVersion::TacacsPlusMinorVerOne)
        } else {
            None
        }
    }

    /// The human-readable protocol name of this value.
    pub fn name(&self) -> (r: &'static str)
        ensures
            r@ == self.spec_name()@,
    {
        match self {
            TacacsMinorVersion::TacacsPlusMinorVerDefault => "TACACS_PLUS_MINOR_VER_DEFAULT",
            TacacsMinorVersion::TacacsPlusMinorVerOne => "TACACS_PLUS_MINOR_VER_ONE",
        }
    }
}

/// The packet type: which of the three protocol families a packet belongs to.
#[derive(Debug, Clone, Copy, PartialEq, Eq, Structural)]
pub enum TacacsType {
    TacPlusAuthentication,
    TacPlusAuthorisation,
    TacPlusAccounting,
}

impl TacacsType {
    /// The byte that stands for this value on the wire.
    pub open spec fn spec_to_u8(self) -> u8 {
        match self {
            TacacsType::TacPlusAuthentication => 0x1,
            TacacsType::TacPlusAuthorisation => 0x2,
            TacacsType::TacPlusAccounting => 0x3,
        }
    }

    /// The value that byte `v` stands for, if any.
    pub open spec fn spec_from_u8(v: u8) -> Option<Self> {
        if v == 0x1 {
            Some(TacacsType::TacPlusAuthentication)
        } else if v == 0x2 {
            Some(TacacsType::TacPlusAuthorisation)
        } else if v == 0x3 {
            Some(TacacsType::TacPlusAccounting)
        } else {
            None
        }
    }

    /// The human-readable protocol name of this value.
    pub open spec fn spec_name(self) -> &'static str {
        match self {
            TacacsType::TacPlusAuthentication => "TAC_PLUS_AUTHENTICATION",
            TacacsType::TacPlusAuthorisation => "TAC_PLUS_AUTHORISATION",
            TacacsType::TacPlusAccounting => "TAC_PLUS_ACCOUNTING",
        }
    }

    /// Decoding the byte of a value gives the value back.
    pub proof fn lemma_from_to(self)
        ensures
            Self::spec_from_u8(self.spec_to_u8()) == Some(self),
    {
    }

    /// The byte that stands for this value on the wire.
    pub fn to_u8(&self) -> (r: u8)
        ensures
            r == self.spec_to_u8(),
    {
        match self {
            TacacsType::TacPlusAuthentication => 0x1,
            TacacsType::TacPlusAuthorisation => 0x2,
            TacacsType::TacPlusAccounting => 0x3,
        }
    }

    /// The value that byte `v` stands for, or `None` for a byte outside the enumeration.
    pub fn from_u8(v: u8) -> (r: Option<Self>)
        ensures
            r == Self::spec_from_u8(v),
    {
        if v == 0x1 {
            Some(TacacsType::TacPlusAuthentication)
        } else if v == 0x2 {
            Some(TacacsType::TacPlusAuthorisation)
        } else if v == 0x3 {
            Some(TacacsType::TacPlusAccounting)
        } else {
            None
        }
    }

    /// The human-readable protocol name of this value.
    pub fn name(&self) -> (r: &'static str)
        ensures
            r@ == self.spec_name()@,
    {
        match self {
            TacacsType::TacPlusAuthentication => "TAC_PLUS_AUTHENTICATION",
            TacacsType::TacPlusAuthorisation => "TAC_PLUS_AUTHORISATION",
            TacacsType::TacPlusAccounting => "TAC_PLUS_ACCOUNTING",
        }
    }
}

/// The action of an authentication start packet.
#[derive(Debug, Clone, Copy, PartialEq, Eq, Structural)]
pub enum TacacsAuthenticationAction {
    TacPlusAuthenLogin,
    TacPlusAuthenChpass,
    TacPlusAuthenSendauth,
}

impl TacacsAuthenticationAction {
    /// The byte that stands for this value on the wire.
    pub open spec fn spec_to_u8(self) -> u8 {
        match self {
            TacacsAuthenticationAction::TacPlusAuthenLogin => 0x1,
            TacacsAuthenticationAction::TacPlusAuthenChpass => 0x2,
            TacacsAuthenticationAction::TacPlusAuthenSendauth => 0x3,
        }
    }

    /// The value that byte `v` stands for, if any.
    pub open spec fn spec_from_u8(v: u8) -> Option<Self> {
        if v == 0x1 {
            Some(TacacsAuthenticationAction::TacPlusAuthenLogin)
        } else if v == 0x2 {
            Some(TacacsAuthenticationAction::TacPlusAuthenChpass)
        } else if v == 0x3 {
            Some(TacacsAuthenticationAction::TacPlusAuthenSendauth)
        } else {
            None
        }
    }

    /// The human-readable protocol name of this value.
    pub open spec fn spec_name(self) -> &'static str {
        match self {
            TacacsAuthenticationAction::TacPlusAuthenLogin => "TAC_PLUS_AUTHEN_LOGIN",
            TacacsAuthenticationAction::TacPlusAuthenChpass => "TAC_PLUS_AUTHEN_CHPASS",
            TacacsAuthenticationAction::TacPlusAuthenSendauth => "TAC_PLUS_AUTHEN_SENDAUTH",
        }
    }

    /// Decoding the byte of a value gives the value back.
    pub proof fn lemma_from_to(self)
        ensures
            Self::spec_from_u8(self.spec_to_u8()) == Some(self),
    {
    }

    /// The byte that stands for this value on the wire.
    pub fn to_u8(&self) -> (r: u8)
        ensures
            r == self.spec_to_u8(),
    {
        match self {
            TacacsAuthenticationAction::TacPlusAuthenLogin => 0x1,
            TacacsAuthenticationAction::TacPlusAuthenChpass => 0x2,
            TacacsAuthenticationAction::TacPlusAuthenSendauth => 0x3,
        }
    }

    /// The value that byte `v` stands for, or `None` for a byte outside the enumeration.
    pub fn from_u8(v: u8) -> (r: Option<Self>)
        ensures
            r == Self::spec_from_u8(v),
    {
        if v == 0x1 {
            Some(TacacsAuthenticationAction::TacPlusAuthenLogin)
        } else if v == 0x2 {
            Some(TacacsAuthenticationAction::TacPlusAuthenChpass)
        } else if v == 0x3 {
            Some(TacacsAuthenticationAction::TacPlusAuthenSendauth)
        } else {
            None
        }
    }

    /// The human-readable protocol name of this value.
    pub fn name(&self) -> (r: &'static str)
        ensures
            r@ == self.spec_name()@,
    {
        match self {
            TacacsAuthenticationAction::TacPlusAuthenLogin => "TAC_PLUS_AUTHEN_LOGIN",
            TacacsAuthenticationAction::TacPlusAuthenChpass => "TAC_PLUS_AUTHEN_CHPASS",
            TacacsAuthenticationAction::TacPlusAuthenSendauth => "TAC_PLUS_AUTHEN_SENDAUTH",
        }
    }
}

/// The type of authentication that was performed.
#[derive(Debug, Clone, Copy, PartialEq, Eq, Structural)]
pub enum TacacsAuthenticationType {
    TacPlusAuthenTypeNotSet,
    TacPlusAuthenTypeAscii,
    TacPlusAuthenTypePap,
    TacPlusAuthenTypeChap,
    TacPlusAuthenTypeMschap,
    TacPlusAuthenTypeMschapv2,
}

impl TacacsAuthenticationType {
    /// The byte that stands for this value on the wire.
    pub open spec fn spec_to_u8(self) -> u8 {
        match self {
            TacacsAuthenticationType::TacPlusAuthenTypeNotSet => 0x00,
            TacacsAuthenticationType::TacPlusAuthenTypeAscii => 0x1,
            TacacsAuthenticationType::TacPlusAuthenTypePap => 0x2,
            TacacsAuthenticationType::TacPlusAuthenTypeChap => 0x3,
            TacacsAuthenticationType::TacPlusAuthenTypeMschap => 0x5,
            TacacsAuthenticationType::TacPlusAuthenTypeMschapv2 => 0x6,
        }
    }

    /// The value that byte `v` stands for, if any.
    pub open spec fn spec_from_u8(v: u8) -> Option<Self> {
        if v == 0x00 {
            Some(TacacsAuthenticationType::TacPlusAuthenTypeNotSet)
        } else if v == 0x1 {
            Some(TacacsAuthenticationType::TacPlusAuthenTypeAscii)
        } else if v == 0x2 {
            Some(TacacsAuthenticationType::TacPlusAuthenTypePap)
        } else if v == 0x3 {
            Some(TacacsAuthenticationType::TacPlusAuthenTypeChap)
        } else if v == 0x5 {
            Some(TacacsAuthenticationType::TacPlusAuthenTypeMschap)
        } else if v == 0x6 {
            Some(TacacsAuthenticationType::TacPlusAuthenTypeMschapv2)
        } else {
            None
        }
    }

    /// The human-readable protocol name of this value.
    pub open spec fn spec_name(self) -> &'static str {
        match self {
            TacacsAuthenticationType::TacPlusAuthenTypeNotSet => "TAC_PLUS_AUTHEN_TYPE_NOT_SET",
            TacacsAuthenticationType::TacPlusAuthenTypeAscii => "TAC_PLUS_AUTHEN_TYPE_ASCII",
            TacacsAuthenticationType::TacPlusAuthenTypePap => "TAC_PLUS_AUTHEN_TYPE_PAP",
            TacacsAuthenticationType::TacPlusAuthenTypeChap => "TAC_PLUS_AUTHEN_TYPE_CHAP",
            TacacsAuthenticationType::TacPlusAuthenTypeMschap => "TAC_PLUS_AUTHEN_TYPE_MSCHAP",
            TacacsAuthenticationType::TacPlusAuthenTypeMschapv2 => "TAC_PLUS_AUTHEN_TYPE_MSCHAPV2",
        }
    }

    /// Decoding the byte of a value gives the value back.
    pub proof fn lemma_from_to(self)
        ensures
            Self::spec_from_u8(self.spec_to_u8()) == Some(self),
    {
    }

    /// The byte that stands for this value on the wire.
    pub fn to_u8(&self) -> (r: u8)
        ensures
            r == self.spec_to_u8(),
    {
        match self {
            TacacsAuthenticationType::TacPlusAuthenTypeNotSet => 0x00,
            TacacsAuthenticationType::TacPlusAuthenTypeAscii => 0x1,
            TacacsAuthenticationType::TacPlusAuthenTypePap => 0x2,
            TacacsAuthenticationType::TacPlusAuthenTypeChap => 0x3,
            TacacsAuthenticationType::TacPlusAuthenTypeMschap => 0x5,
            TacacsAuthenticationType::TacPlusAuthenTypeMschapv2 => 0x6,
        }
    }

    /// The value that byte `v` stands for, or `None` for a byte outside the enumeration.
    pub fn from_u8(v: u8) -> (r: Option<Self>)
        ensures
            r == Self::spec_from_u8(v),
    {
        if v == 0x00 {
            Some(TacacsAuthenticationType::TacPlusAuthenTypeNotSet)
        } else if v == 0x1 {
            Some(TacacsAuthenticationType::TacPlusAuthenTypeAscii)
        } else if v == 0x2 {
            Some(TacacsAuthenticationType::TacPlusAuthenTypePap)
        } else if v == 0x3 {
            Some(TacacsAuthenticationType::TacPlusAuthenTypeChap)
        } else if v == 0x5 {
            Some(TacacsAuthenticationType::TacPlusAuthenTypeMschap)
        } else if v == 0x6 {
            Some(TacacsAuthenticationType::TacPlusAuthenTypeMschapv2)
        } else {
            None
        }
    }

    /// The human-readable protocol name of this value.
    pub fn name(&self) -> (r: &'static str)
        ensures
            r@ == self.spec_name()@,
    {
        match self {
            TacacsAuthenticationType::TacPlusAuthenTypeNotSet => "TAC_PLUS_AUTHEN_TYPE_NOT_SET",
            TacacsAuthenticationType::TacPlusAuthenTypeAscii => "TAC_PLUS_AUTHEN_TYPE_ASCII",
            TacacsAuthenticationType::TacPlusAuthenTypePap => "TAC_PLUS_AUTHEN_TYPE_PAP",
            TacacsAuthenticationType::TacPlusAuthenTypeChap => "TAC_PLUS_AUTHEN_TYPE_CHAP",
            TacacsAuthenticationType::TacPlusAuthenTypeMschap => "TAC_PLUS_AUTHEN_TYPE_MSCHAP",
            TacacsAuthenticationType::TacPlusAuthenTypeMschapv2 => "TAC_PLUS_AUTHEN_TYPE_MSCHAPV2",
        }
    }
}

/// The service that requested the authentication.
#[derive(Debug, Clone, Copy, PartialEq, Eq, Structural)]
pub enum TacacsAuthenticationService {
    TacPlusAuthenSvcNone,
    TacPlusAuthenSvcLogin,
    TacPlusAuthenSvcEnable,
    TacPlusAuthenSvcPpp,
    TacPlusAuthenSvcPt,
    TacPlusAuthenSvcRcmd,
    TacPlusAuthenSvcX25,
    TacPlusAuthenSvcNasi,
    TacPlusAuthenSvcFwproxy,
}

impl TacacsAuthenticationService {
    /// The byte that stands for this value on the wire.
    pub open spec fn spec_to_u8(self) -> u8 {
        match self {
            TacacsAuthenticationService::TacPlusAuthenSvcNone => 0x0,
            TacacsAuthenticationService::TacPlusAuthenSvcLogin => 0x1,
            TacacsAuthenticationService::TacPlusAuthenSvcEnable => 0x2,
            TacacsAuthenticationService::TacPlusAuthenSvcPpp => 0x3,
            TacacsAuthenticationService::TacPlusAuthenSvcPt => 0x5,
            TacacsAuthenticationService::TacPlusAuthenSvcRcmd => 0x6,
            TacacsAuthenticationService::TacPlusAuthenSvcX25 => 0x7,
            TacacsAuthenticationService::TacPlusAuthenSvcNasi => 0x8,
            TacacsAuthenticationService::TacPlusAuthenSvcFwproxy => 0x9,
        }
    }

    /// The value that byte `v` stands for, if any.
    pub open spec fn spec_from_u8(v: u8) -> Option<Self> {
        if v == 0x0 {
            Some(TacacsAuthenticationService::TacPlusAuthenSvcNone)
        } else if v == 0x1 {
            Some(TacacsAuthenticationService::TacPlusAuthenSvcLogin)
        } else if v == 0x2 {
            Some(TacacsAuthenticationService::TacPlusAuthenSvcEnable)
        } else if v == 0x3 {
            Some(TacacsAuthenticationService::TacPlusAuthenSvcPpp)
        } else if v == 0x5 {
            Some(TacacsAuthenticationService::TacPlusAuthenSvcPt)
        } else if v == 0x6 {
            Some(TacacsAuthenticationService::TacPlusAuthenSvcRcmd)
        } else if v == 0x7 {
            Some(TacacsAuthenticationService::TacPlusAuthenSvcX25)
        } else if v == 0x8 {
            Some(TacacsAuthenticationService::TacPlusAuthenSvcNasi)
        } else if v == 0x9 {
            Some(TacacsAuthenticationService::TacPlusAuthenSvcFwproxy)
        } else {
            None
        }
    }

    /// The human-readable protocol name of this value.
    pub open spec fn spec_name(self) -> &'static str {
        match self {
            TacacsAuthenticationService::TacPlusAuthenSvcNone => "TAC_PLUS_AUTHEN_SVC_NONE",
            TacacsAuthenticationService::TacPlusAuthenSvcLogin => "TAC_PLUS_AUTHEN_SVC_LOGIN",
            TacacsAuthenticationService::TacPlusAuthenSvcEnable => "TAC_PLUS_AUTHEN_SVC_ENABLE",
            TacacsAuthenticationService::TacPlusAuthenSvcPpp => "TAC_PLUS_AUTHEN_SVC_PPP",
            TacacsAuthenticationService::TacPlusAuthenSvcPt => "TAC_PLUS_AUTHEN_SVC_PT",
            TacacsAuthenticationService::TacPlusAuthenSvcRcmd => "TAC_PLUS_AUTHEN_SVC_RCMD",
            TacacsAuthenticationService::TacPlusAuthenSvcX25 => "TAC_PLUS_AUTHEN_SVC_X25",
            TacacsAuthenticationService::TacPlusAuthenSvcNasi => "TAC_PLUS_AUTHEN_SVC_NASI",
            TacacsAuthenticationService::TacPlusAuthenSvcFwproxy => "TAC_PLUS_AUTHEN_SVC_FWPROXY",
        }
    }

    /// Decoding the byte of a value gives the value back.
    pub proof fn lemma_from_to(self)
        ensures
            Self::spec_from_u8(self.spec_to_u8()) == Some(self),
    {
    }

    /// The byte that stands for this value on the wire.
    pub fn to_u8(&self) -> (r: u8)
        ensures
            r == self.spec_to_u8(),
    {
        match self {
            TacacsAuthenticationService::TacPlusAuthenSvcNone => 0x0,
            TacacsAuthenticationService::TacPlusAuthenSvcLogin => 0x1,
            TacacsAuthenticationService::TacPlusAuthenSvcEnable => 0x2,
            TacacsAuthenticationService::TacPlusAuthenSvcPpp => 0x3,
            TacacsAuthenticationService::TacPlusAuthenSvcPt => 0x5,
            TacacsAuthenticationService::TacPlusAuthenSvcRcmd => 0x6,
            TacacsAuthenticationService::TacPlusAuthenSvcX25 => 0x7,
            TacacsAuthenticationService::TacPlusAuthenSvcNasi => 0x8,
            TacacsAuthenticationService::TacPlusAuthenSvcFwproxy => 0x9,
        }
    }

    /// The value that byte `v` stands for, or `None` for a byte outside the enumeration.
    pub fn from_u8(v: u8) -> (r: Option<Self>)
        ensures
            r == Self::spec_from_u8(v),
    {
        if v == 0x0 {
            Some(TacacsAuthenticationService::TacPlusAuthenSvcNone)
        } else if v == 0x1 {
            Some(TacacsAuthenticationService::TacPlusAuthenSvcLogin)
        } else if v == 0x2 {
            Some(TacacsAuthenticationService::TacPlusAuthenSvcEnable)
        } else if v == 0x3 {
            Some(TacacsAuthenticationService::TacPlusAuthenSvcPpp)
        } else if v == 0x5 {
            Some(TacacsAuthenticationService::TacPlusAuthenSvcPt)
        } else if v == 0x6 {
            Some(TacacsAuthenticationService::TacPlusAuthenSvcRcmd)
        } else if v == 0x7 {
            Some(TacacsAuthenticationService::TacPlusAuthenSvcX25)
        } else if v == 0x8 {
            Some(TacacsAuthenticationService::TacPlusAuthenSvcNasi)
        } else if v == 0x9 {
            Some(TacacsAuthenticationService::TacPlusAuthenSvcFwproxy)
        } else {
            None
        }
    }

    /// The human-readable protocol name of this value.
    pub fn name(&self) -> (r: &'static str)
        ensures
            r@ == self.spec_name()@,
    {
        match self {
            TacacsAuthenticationService::TacPlusAuthenSvcNone => "TAC_PLUS_AUTHEN_SVC_NONE",
            TacacsAuthenticationService::TacPlusAuthenSvcLogin => "TAC_PLUS_AUTHEN_SVC_LOGIN",
            TacacsAuthenticationService::TacPlusAuthenSvcEnable => "TAC_PLUS_AUTHEN_SVC_ENABLE",
            TacacsAuthenticationService::TacPlusAuthenSvcPpp => "TAC_PLUS_AUTHEN_SVC_PPP",
            TacacsAuthenticationService::TacPlusAuthenSvcPt => "TAC_PLUS_AUTHEN_SVC_PT",
            TacacsAuthenticationService::TacPlusAuthenSvcRcmd => "TAC_PLUS_AUTHEN_SVC_RCMD",
            TacacsAuthenticationService::TacPlusAuthenSvcX25 => "TAC_PLUS_AUTHEN_SVC_X25",
            TacacsAuthenticationService::TacPlusAuthenSvcNasi => "TAC_PLUS_AUTHEN_SVC_NASI",
            TacacsAuthenticationService::TacPlusAuthenSvcFwproxy => "TAC_PLUS_AUTHEN_SVC_FWPROXY",
        }
    }
}

/// The status of an authentication reply.
#[derive(Debug, Clone, Copy, PartialEq, Eq, Structural)]
pub enum TacacsAuthenticationStatus {
    TacPlusAuthenStatusPass,
    TacPlusAuthenStatusFail,
    TacPlusAuthenStatusGetdata,
    TacPlusAuthenStatusGetuser,
    TacPlusAuthenStatusGetpass,
    TacPlusAuthenStatusRestart,
    TacPlusAuthenStatusError,
    TacPlusAuthenStatusFollow,
}

impl TacacsAuthenticationStatus {
    /// The byte that stands for this value on the wire.
    pub open spec fn spec_to_u8(self) -> u8 {
        match self {
            TacacsAuthenticationStatus::TacPlusAuthenStatusPass => 0x1,
            TacacsAuthenticationStatus::TacPlusAuthenStatusFail => 0x2,
            TacacsAuthenticationStatus::TacPlusAuthenStatusGetdata => 0x3,
            TacacsAuthenticationStatus::TacPlusAuthenStatusGetuser => 0x4,
            TacacsAuthenticationStatus::TacPlusAuthenStatusGetpass => 0x5,
            TacacsAuthenticationStatus::TacPlusAuthenStatusRestart => 0x6,
            TacacsAuthenticationStatus::TacPlusAuthenStatusError => 0x7,
            TacacsAuthenticationStatus::TacPlusAuthenStatusFollow => 0x21,
        }
    }

    /// The value that byte `v` stands for, if any.
    pub open spec fn spec_from_u8(v: u8) -> Option<Self> {
        if v == 0x1 {
            Some(TacacsAuthenticationStatus::TacPlusAuthenStatusPass)
        } else if v == 0x2 {
            Some(TacacsAuthenticationStatus::TacPlusAuthenStatusFail)
        } else if v == 0x3 {
            Some(TacacsAuthenticationStatus::TacPlusAuthenStatusGetdata)
        } else if v == 0x4 {
            Some(TacacsAuthenticationStatus::TacPlusAuthenStatusGetuser)
        } else if v == 0x5 {
            Some(TacacsAuthenticationStatus::TacPlusAuthenStatusGetpass)
        } else if v == 0x6 {
            Some(TacacsAuthenticationStatus::TacPlusAuthenStatusRestart)
        } else if v == 0x7 {
            Some(TacacsAuthenticationStatus::TacPlusAuthenStatusError)
        } else if v == 0x21 {
            Some(TacacsAuthenticationStatus::TacPlusAuthenStatusFollow)
        } else {
            None
        }
    }

    /// The human-readable protocol name of this value.
    pub open spec fn spec_name(self) -> &'static str {
        match self {
            TacacsAuthenticationStatus::TacPlusAuthenStatusPass => "TAC_PLUS_AUTHEN_STATUS_PASS",
            TacacsAuthenticationStatus::TacPlusAuthenStatusFail => "TAC_PLUS_AUTHEN_STATUS_FAIL",
            TacacsAuthenticationStatus::TacPlusAuthenStatusGetdata => "TAC_PLUS_AUTHEN_STATUS_GETDATA",
            TacacsAuthenticationStatus::TacPlusAuthenStatusGetuser => "TAC_PLUS_AUTHEN_STATUS_GETUSER",
            TacacsAuthenticationStatus::TacPlusAuthenStatusGetpass => "TAC_PLUS_AUTHEN_STATUS_GETPASS",
            TacacsAuthenticationStatus::TacPlusAuthenStatusRestart => "TAC_PLUS_AUTHEN_STATUS_RESTART",
            TacacsAuthenticationStatus::TacPlusAuthenStatusError => "TAC_PLUS_AUTHEN_STATUS_ERROR",
            TacacsAuthenticationStatus::TacPlusAuthenStatusFollow => "TAC_PLUS_AUTHEN_STATUS_FOLLOW",
        }
    }

    /// Decoding the byte of a value gives the value back.
    pub proof fn lemma_from_to(self)
        ensures
            Self::spec_from_u8(self.spec_to_u8()) == Some(self),
    {
    }

    /// The byte that stands for this value on the wire.
    pub fn to_u8(&self) -> (r: u8)
        ensures
            r == self.spec_to_u8(),
    {
        match self {
            TacacsAuthenticationStatus::TacPlusAuthenStatusPass => 0x1,
            TacacsAuthenticationStatus::TacPlusAuthenStatusFail => 0x2,
            TacacsAuthenticationStatus::TacPlusAuthenStatusGetdata => 0x3,
            TacacsAuthenticationStatus::TacPlusAuthenStatusGetuser => 0x4,
            TacacsAuthenticationStatus::TacPlusAuthenStatusGetpass => 0x5,
            TacacsAuthenticationStatus::TacPlusAuthenStatusRestart => 0x6,
            TacacsAuthenticationStatus::TacPlusAuthenStatusError => 0x7,
            TacacsAuthenticationStatus::TacPlusAuthenStatusFollow => 0x21,
        }
    }

    /// The value that byte `v` stands for, or `None` for a byte outside the enumeration.
    pub fn from_u8(v: u8) -> (r: Option<Self>)
        ensures
            r == Self::spec_from_u8(v),
    {
        if v == 0x1 {
            Some(TacacsAuthenticationStatus::TacPlusAuthenStatusPass)
        } else if v == 0x2 {
            Some(TacacsAuthenticationStatus::TacPlusAuthenStatusFail)
        } else if v == 0x3 {
            Some(TacacsAuthenticationStatus::TacPlusAuthenStatusGetdata)
        } else if v == 0x4 {
            Some(TacacsAuthenticationStatus::TacPlusAuthenStatusGetuser)
        } else if v == 0x5 {
            Some(TacacsAuthenticationStatus::TacPlusAuthenStatusGetpass)
        } else if v == 0x6 {
            Some(TacacsAuthenticationStatus::TacPlusAuthenStatusRestart)
        } else if v == 0x7 {
            Some(TacacsAuthenticationStatus::TacPlusAuthenStatusError)
        } else if v == 0x21 {
            Some(TacacsAuthenticationStatus::TacPlusAuthenStatusFollow)
        } else {
            None
        }
    }

    /// The human-readable protocol name of this value.
    pub fn name(&self) -> (r: &'static str)
        ensures
            r@ == self.spec_name()@,
    {
        match self {
            TacacsAuthenticationStatus::TacPlusAuthenStatusPass => "TAC_PLUS_AUTHEN_STATUS_PASS",
            TacacsAuthenticationStatus::TacPlusAuthenStatusFail => "TAC_PLUS_AUTHEN_STATUS_FAIL",
            TacacsAuthenticationStatus::TacPlusAuthenStatusGetdata => "TAC_PLUS_AUTHEN_STATUS_GETDATA",
            TacacsAuthenticationStatus::TacPlusAuthenStatusGetuser => "TAC_PLUS_AUTHEN_STATUS_GETUSER",
            TacacsAuthenticationStatus::TacPlusAuthenStatusGetpass => "TAC_PLUS_AUTHEN_STATUS_GETPASS",
            TacacsAuthenticationStatus::TacPlusAuthenStatusRestart => "TAC_PLUS_AUTHEN_STATUS_RESTART",
            TacacsAuthenticationStatus::TacPlusAuthenStatusError => "TAC_PLUS_AUTHEN_STATUS_ERROR",
            TacacsAuthenticationStatus::TacPlusAuthenStatusFollow => "TAC_PLUS_AUTHEN_STATUS_FOLLOW",
        }
    }
}

/// The flag of an authentication continue packet.
#[derive(Debug, Clone, Copy, PartialEq, Eq, Structural)]
pub enum TacacsAuthenticationContinueStatus {
    TacPlusContinueFlagAbort,
}

impl TacacsAuthenticationContinueStatus {
    /// The byte that stands for this value on the wire.
    pub open spec fn spec_to_u8(self) -> u8 {
        match self {
            TacacsAuthenticationContinueStatus::TacPlusContinueFlagAbort => 0x01,
        }
    }

    /// The value that byte `v` stands for, if any.
    pub open spec fn spec_from_u8(v: u8) -> Option<Self> {
        if v == 0x01 {
            Some(TacacsAuthenticationContinueStatus::TacPlusContinueFlagAbort)
        } else {
            None
        }
    }

    /// The human-readable protocol name of this value.
    pub open spec fn spec_name(self) -> &'static str {
        match self {
            TacacsAuthenticationContinueStatus::TacPlusContinueFlagAbort => "TAC_PLUS_CONTINUE_FLAG_ABORT",
        }
    }

    /// Decoding the byte of a value gives the value back.
    pub proof fn lemma_from_to(self)
        ensures
            Self::spec_from_u8(self.spec_to_u8()) == Some(self),
    {
    }

    /// The byte that stands for this value on the wire.
    pub fn to_u8(&self) -> (r: u8)
        ensures
            r == self.spec_to_u8(),
    {
        match self {
            TacacsAuthenticationContinueStatus::TacPlusContinueFlagAbort => 0x01,
        }
    }

    /// The value that byte `v` stands for, or `None` for a byte outside the enumeration.
    pub fn from_u8(v: u8) -> (r: Option<Self>)
        ensures
            r == Self::spec_from_u8(v),
    {
        if v == 0x01 {
            Some(TacacsAuthenticationContinueStatus::TacPlusContinueFlagAbort)
        } else {
            None
        }
    }

    /// The human-readable protocol name of this value.
    pub fn name(&self) -> (r: &'static str)
        ensures
            r@ == self.spec_name()@,
    {
        match self {
            TacacsAuthenticationContinueStatus::TacPlusContinueFlagAbort => "TAC_PLUS_CONTINUE_FLAG_ABORT",
        }
    }
}

/// The method used to authenticate the user.
#[derive(Debug, Clone, Copy, PartialEq, Eq, Structural)]
pub enum TacacsAuthenticationMethod {
    TacPlusAuthenMethodNotSet,
    TacPlusAuthenMethodNone,
    TacPlusAuthenMethodKrb5,
    TacPlusAuthenMethodLine,
    TacPlusAuthenMethodEnable,
    TacPlusAuthenMethodLocal,
    TacPlusAuthenMethodTacacsplus,
    TacPlusAuthenMethodGuest,
    TacPlusAuthenMethodRadius,
    TacPlusAuthenMethodKrb4,
    TacPlusAuthenMethodRcmd,
}

impl TacacsAuthenticationMethod {
    /// The byte that stands for this value on the wire.
    pub open spec fn spec_to_u8(self) -> u8 {
        match self {
            TacacsAuthenticationMethod::TacPlusAuthenMethodNotSet => 0x00,
            TacacsAuthenticationMethod::TacPlusAuthenMethodNone => 0x01,
            TacacsAuthenticationMethod::TacPlusAuthenMethodKrb5 => 0x02,
            TacacsAuthenticationMethod::TacPlusAuthenMethodLine => 0x03,
            TacacsAuthenticationMethod::TacPlusAuthenMethodEnable => 0x04,
            TacacsAuthenticationMethod::TacPlusAuthenMethodLocal => 0x05,
            TacacsAuthenticationMethod::TacPlusAuthenMethodTacacsplus => 0x06,
            TacacsAuthenticationMethod::TacPlusAuthenMethodGuest => 0x08,
            TacacsAuthenticationMethod::TacPlusAuthenMethodRadius => 0x10,
            TacacsAuthenticationMethod::TacPlusAuthenMethodKrb4 => 0x11,
            TacacsAuthenticationMethod::TacPlusAuthenMethodRcmd => 0x20,
        }
    }

    /// The value that byte `v` stands for, if any.
    pub open spec fn spec_from_u8(v: u8) -> Option<Self> {
        if v == 0x00 {
            Some(TacacsAuthenticationMethod::TacPlusAuthenMethodNotSet)
        } else if v == 0x01 {
            Some(TacacsAuthenticationMethod::TacPlusAuthenMethodNone)
        } else if v == 0x02 {
            Some(TacacsAuthenticationMethod::TacPlusAuthenMethodKrb5)
        } else if v == 0x03 {
            Some(TacacsAuthenticationMethod::TacPlusAuthenMethodLine)
        } else if v == 0x04 {
            Some(TacacsAuthenticationMethod::TacPlusAuthenMethodEnable)
        } else if v == 0x05 {
            Some(TacacsAuthenticationMethod::TacPlusAuthenMethodLocal)
        } else if v == 0x06 {
            Some(TacacsAuthenticationMethod::TacPlusAuthenMethodTacacsplus)
        } else if v == 0x08 {
            Some(TacacsAuthenticationMethod::TacPlusAuthenMethodGuest)
        } else if v == 0x10 {
            Some(TacacsAuthenticationMethod::TacPlusAuthenMethodRadius)
        } else if v == 0x11 {
            Some(TacacsAuthenticationMethod::TacPlusAuthenMethodKrb4)
        } else if v == 0x20 {
            Some(TacacsAuthenticationMethod::TacPlusAuthenMethodRcmd)
        } else {
            None
        }
    }

    /// The human-readable protocol name of this value.
    pub open spec fn spec_name(self) -> &'static str {
        match self {
            TacacsAuthenticationMethod::TacPlusAuthenMethodNotSet => "TAC_PLUS_AUTHEN_METH_NOT_SET",
            TacacsAuthenticationMethod::TacPlusAuthenMethodNone => "TAC_PLUS_AUTHEN_METH_NONE",
            TacacsAuthenticationMethod::TacPlusAuthenMethodKrb5 => "TAC_PLUS_AUTHEN_METH_KRB5",
            TacacsAuthenticationMethod::TacPlusAuthenMethodLine => "TAC_PLUS_AUTHEN_METH_LINE",
            TacacsAuthenticationMethod::TacPlusAuthenMethodEnable => "TAC_PLUS_AUTHEN_METH_ENABLE",
            TacacsAuthenticationMethod::TacPlusAuthenMethodLocal => "TAC_PLUS_AUTHEN_METH_LOCAL",
            TacacsAuthenticationMethod::TacPlusAuthenMethodTacacsplus => "TAC_PLUS_AUTHEN_METH_TACACSPLUS",
            TacacsAuthenticationMethod::TacPlusAuthenMethodGuest => "TAC_PLUS_AUTHEN_METH_GUEST",
            TacacsAuthenticationMethod::TacPlusAuthenMethodRadius => "TAC_PLUS_AUTHEN_METH_RADIUS",
            TacacsAuthenticationMethod::TacPlusAuthenMethodKrb4 => "TAC_PLUS_AUTHEN_METH_KRB4",
            TacacsAuthenticationMethod::TacPlusAuthenMethodRcmd => "TAC_PLUS_AUTHEN_METH_RCMD",
        }
    }

    /// Decoding the byte of a value gives the value back.
    pub proof fn lemma_from_to(self)
        ensures
            Self::spec_from_u8(self.spec_to_u8()) == Some(self),
    {
    }

    /// The byte that stands for this value on the wire.
    pub fn to_u8(&self) -> (r: u8)
        ensures
            r == self.spec_to_u8(),
    {
        match self {
            TacacsAuthenticationMethod::TacPlusAuthenMethodNotSet => 0x00,
            TacacsAuthenticationMethod::TacPlusAuthenMethodNone => 0x01,
            TacacsAuthenticationMethod::TacPlusAuthenMethodKrb5 => 0x02,
            TacacsAuthenticationMethod::TacPlusAuthenMethodLine => 0x03,
            TacacsAuthenticationMethod::TacPlusAuthenMethodEnable => 0x04,
            TacacsAuthenticationMethod::TacPlusAuthenMethodLocal => 0x05,
            TacacsAuthenticationMethod::TacPlusAuthenMethodTacacsplus => 0x06,
            TacacsAuthenticationMethod::TacPlusAuthenMethodGuest => 0x08,
            TacacsAuthenticationMethod::TacPlusAuthenMethodRadius => 0x10,
            TacacsAuthenticationMethod::TacPlusAuthenMethodKrb4 => 0x11,
            TacacsAuthenticationMethod::TacPlusAuthenMethodRcmd => 0x20,
        }
    }

    /// The value that byte `v` stands for, or `None` for a byte outside the enumeration.
    pub fn from_u8(v: u8) -> (r: Option<Self>)
        ensures
            r == Self::spec_from_u8(v),
    {
        if v == 0x00 {
            Some(TacacsAuthenticationMethod::TacPlusAuthenMethodNotSet)
        } else if v == 0x01 {
            Some(TacacsAuthenticationMethod::TacPlusAuthenMethodNone)
        } else if v == 0x02 {
            Some(TacacsAuthenticationMethod::TacPlusAuthenMethodKrb5)
        } else if v == 0x03 {
            Some(TacacsAuthenticationMethod::TacPlusAuthenMethodLine)
        } else if v == 0x04 {
            Some(TacacsAuthenticationMethod::TacPlusAuthenMethodEnable)
        } else if v == 0x05 {
            Some(TacacsAuthenticationMethod::TacPlusAuthenMethodLocal)
        } else if v == 0x06 {
            Some(TacacsAuthenticationMethod::TacPlusAuthenMethodTacacsplus)
        } else if v == 0x08 {
            Some(TacacsAuthenticationMethod::TacPlusAuthenMethodGuest)
        } else if v == 0x10 {
            Some(TacacsAuthenticationMethod::TacPlusAuthenMethodRadius)
        } else if v == 0x11 {
            Some(TacacsAuthenticationMethod::TacPlusAuthenMethodKrb4)
        } else if v == 0x20 {
            Some(TacacsAuthenticationMethod::TacPlusAuthenMethodRcmd)
        } else {
            None
        }
    }

    /// The human-readable protocol name of this value.
    pub fn name(&self) -> (r: &'static str)
        ensures
            r@ == self.spec_name()@,
    {
        match self {
            TacacsAuthenticationMethod::TacPlusAuthenMethodNotSet => "TAC_PLUS_AUTHEN_METH_NOT_SET",
            TacacsAuthenticationMethod::TacPlusAuthenMethodNone => "TAC_PLUS_AUTHEN_METH_NONE",
            TacacsAuthenticationMethod::TacPlusAuthenMethodKrb5 => "TAC_PLUS_AUTHEN_METH_KRB5",
            TacacsAuthenticationMethod::TacPlusAuthenMethodLine => "TAC_PLUS_AUTHEN_METH_LINE",
            TacacsAuthenticationMethod::TacPlusAuthenMethodEnable => "TAC_PLUS_AUTHEN_METH_ENABLE",
            TacacsAuthenticationMethod::TacPlusAuthenMethodLocal => "TAC_PLUS_AUTHEN_METH_LOCAL",
            TacacsAuthenticationMethod::TacPlusAuthenMethodTacacsplus => "TAC_PLUS_AUTHEN_METH_TACACSPLUS",
            TacacsAuthenticationMethod::TacPlusAuthenMethodGuest => "TAC_PLUS_AUTHEN_METH_GUEST",
            TacacsAuthenticationMethod::TacPlusAuthenMethodRadius => "TAC_PLUS_AUTHEN_METH_RADIUS",
            TacacsAuthenticationMethod::TacPlusAuthenMethodKrb4 => "TAC_PLUS_AUTHEN_METH_KRB4",
            TacacsAuthenticationMethod::TacPlusAuthenMethodRcmd => "TAC_PLUS_AUTHEN_METH_RCMD",
        }
    }
}

/// The status of an authorization reply.
#[derive(Debug, Clone, Copy, PartialEq, Eq, Structural)]
pub enum TacacsAuthorizationStatus {
    TacPlusPassAdd,
    TacPlusPassRepl,
    TacPlusFail,
    TacPlusError,
    TacPlusFollow,
}

impl TacacsAuthorizationStatus {
    /// The byte that stands for this value on the wire.
    pub open spec fn spec_to_u8(self) -> u8 {
        match self {
            TacacsAuthorizationStatus::TacPlusPassAdd => 0x01,
            TacacsAuthorizationStatus::TacPlusPassRepl => 0x02,
            TacacsAuthorizationStatus::TacPlusFail => 0x10,
            TacacsAuthorizationStatus::TacPlusError => 0x11,
            TacacsAuthorizationStatus::TacPlusFollow => 0x21,
        }
    }

    /// The value that byte `v` stands for, if any.
    pub open spec fn spec_from_u8(v: u8) -> Option<Self> {
        if v == 0x01 {
            Some(TacacsAuthorizationStatus::TacPlusPassAdd)
        } else if v == 0x02 {
            Some(TacacsAuthorizationStatus::TacPlusPassRepl)
        } else if v == 0x10 {
            Some(TacacsAuthorizationStatus::TacPlusFail)
        } else if v == 0x11 {
            Some(TacacsAuthorizationStatus::TacPlusError)
        } else if v == 0x21 {
            Some(TacacsAuthorizationStatus::TacPlusFollow)
        } else {
            None
        }
    }

    /// The human-readable protocol name of this value.
    pub open spec fn spec_name(self) -> &'static str {
        match self {
            TacacsAuthorizationStatus::TacPlusPassAdd => "TAC_PLUS_PASS_ADD",
            TacacsAuthorizationStatus::TacPlusPassRepl => "TAC_PLUS_PASS_REPL",
            TacacsAuthorizationStatus::TacPlusFail => "TAC_PLUS_FAIL",
            TacacsAuthorizationStatus::TacPlusError => "TAC_PLUS_ERROR",
            TacacsAuthorizationStatus::TacPlusFollow => "TAC_PLUS_FOLLOW",
        }
    }

    /// Decoding the byte of a value gives the value back.
    pub proof fn lemma_from_to(self)
        ensures
            Self::spec_from_u8(self.spec_to_u8()) == Some(self),
    {
    }

    /// The byte that stands for this value on the wire.
    pub fn to_u8(&self) -> (r: u8)
        ensures
            r == self.spec_to_u8(),
    {
        match self {
            TacacsAuthorizationStatus::TacPlusPassAdd => 0x01,
            TacacsAuthorizationStatus::TacPlusPassRepl => 0x02,
            TacacsAuthorizationStatus::TacPlusFail => 0x10,
            TacacsAuthorizationStatus::TacPlusError => 0x11,
            TacacsAuthorizationStatus::TacPlusFollow => 0x21,
        }
    }

    /// The value that byte `v` stands for, or `None` for a byte outside the enumeration.
    pub fn from_u8(v: u8) -> (r: Option<Self>)
        ensures
            r == Self::spec_from_u8(v),
    {
        if v == 0x01 {
            Some(TacacsAuthorizationStatus::TacPlusPassAdd)
        } else if v == 0x02 {
            Some(TacacsAuthorizationStatus::TacPlusPassRepl)
        } else if v == 0x10 {
            Some(TacacsAuthorizationStatus::TacPlusFail)
        } else if v == 0x11 {
            Some(TacacsAuthorizationStatus::TacPlusError)
        } else if v == 0x21 {
            Some(TacacsAuthorizationStatus::TacPlusFollow)
        } else {
            None
        }
    }

    /// The human-readable protocol name of this value.
    pub fn name(&self) -> (r: &'static str)
        ensures
            r@ == self.spec_name()@,
    {
        match self {
            TacacsAuthorizationStatus::TacPlusPassAdd => "TAC_PLUS_PASS_ADD",
            TacacsAuthorizationStatus::TacPlusPassRepl => "TAC_PLUS_PASS_REPL",
            TacacsAuthorizationStatus::TacPlusFail => "TAC_PLUS_FAIL",
            TacacsAuthorizationStatus::TacPlusError => "TAC_PLUS_ERROR",
            TacacsAuthorizationStatus::TacPlusFollow => "TAC_PLUS_FOLLOW",
        }
    }
}

/// The status of an accounting reply.
#[derive(Debug, Clone, Copy, PartialEq, Eq, Structural)]
pub enum TacacsAccountingStatus {
    TacPlusAcctStatusSuccess,
    TacPlusAcctStatusError,
    TacPlusAcctStatusFollow,
}

impl TacacsAccountingStatus {
    /// The byte that stands for this value on the wire.
    pub open spec fn spec_to_u8(self) -> u8 {
        match self {
            TacacsAccountingStatus::TacPlusAcctStatusSuccess => 0x01,
            TacacsAccountingStatus::TacPlusAcctStatusError => 0x02,
            TacacsAccountingStatus::TacPlusAcctStatusFollow => 0x21,
        }
    }

    /// The value that byte `v` stands for, if any.
    pub open spec fn spec_from_u8(v: u8) -> Option<Self> {
        if v == 0x01 {
            Some(TacacsAccountingStatus::TacPlusAcctStatusSuccess)
        } else if v == 0x02 {
            Some(TacacsAccountingStatus::TacPlusAcctStatusError)
        } else if v == 0x21 {
            Some(TacacsAccountingStatus::TacPlusAcctStatusFollow)
        } else {
            None
        }
    }

    /// The human-readable protocol name of this value.
    pub open spec fn spec_name(self) -> &'static str {
        match self {
            TacacsAccountingStatus::TacPlusAcctStatusSuccess => "TAC_PLUS_ACCT_STATUS_SUCCESS",
            TacacsAccountingStatus::TacPlusAcctStatusError => "TAC_PLUS_ACCT_STATUS_ERROR",
            TacacsAccountingStatus::TacPlusAcctStatusFollow => "TAC_PLUS_ACCT_STATUS_FOLLOW",
        }
    }

    /// Decoding the byte of a value gives the value back.
    pub proof fn lemma_from_to(self)
        ensures
            Self::spec_from_u8(self.spec_to_u8()) == Some(self),
    {
    }

    /// The byte that stands for this value on the wire.
    pub fn to_u8(&self) -> (r: u8)
        ensures
            r == self.spec_to_u8(),
    {
        match self {
            TacacsAccountingStatus::TacPlusAcctStatusSuccess => 0x01,
            TacacsAccountingStatus::TacPlusAcctStatusError => 0x02,
            TacacsAccountingStatus::TacPlusAcctStatusFollow => 0x21,
        }
    }

    /// The value that byte `v` stands for, or `None` for a byte outside the enumeration.
    pub fn from_u8(v: u8) -> (r: Option<Self>)
        ensures
            r == Self::spec_from_u8(v),
    {
        if v == 0x01 {
            Some(TacacsAccountingStatus::TacPlusAcctStatusSuccess)
        } else if v == 0x02 {
            Some(TacacsAccountingStatus::TacPlusAcctStatusError)
        } else if v == 0x21 {
            Some(TacacsAccountingStatus::TacPlusAcctStatusFollow)
        } else {
            None
        }
    }

    /// The human-readable protocol name of this value.
    pub fn name(&self) -> (r: &'static str)
        ensures
            r@ == self.spec_name()@,
    {
        match self {
            TacacsAccountingStatus::TacPlusAcctStatusSuccess => "TAC_PLUS_ACCT_STATUS_SUCCESS",
            TacacsAccountingStatus::TacPlusAcctStatusError => "TAC_PLUS_ACCT_STATUS_ERROR",
            TacacsAccountingStatus::TacPlusAcctStatusFollow => "TAC_PLUS_ACCT_STATUS_FOLLOW",
        }
    }
}

} // verus!
