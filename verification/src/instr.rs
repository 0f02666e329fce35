pub mod arith;
pub mod branch;
pub mod logic;
pub mod memory;
pub mod muldiv;
pub mod shift;

pub use self::arith::{
    AddInstr,
    AddiInstr,
    AddiuInstr,
    AdduInstr,
    LuiInstr,
    NopInstr,
    SltInstr,
    SltiInstr,
    SltiuInstr,
    SltuInstr,
    SubInstr,
    SubuInstr,
};
pub use self::branch::{
    BeqInstr,
    BgezInstr,
    BgtzInstr,
    BlezInstr,
    BltzInstr,
    BneInstr,
    JInstr,
    JalInstr,
    JalrInstr,
    JrInstr,
};
pub use self::logic::{
    AndInstr,
    AndiInstr,
    NorInstr,
    OrInstr,
    OriInstr,
    XorInstr,
    XoriInstr,
};
pub use self::memory::{
    LbInstr,
    LbuInstr,
    LhInstr,
    LhuInstr,
    LwInstr,
    SbInstr,
    ShInstr,
    SwInstr,
};
pub use self::muldiv::{
    DivInstr,
    DivuInstr,
    MfhiInstr,
    MfloInstr,
    MthiInstr,
    MtloInstr,
    MultInstr,
    MultuInstr,
};
pub use self::shift::{
    SllInstr,
    SllvInstr,
    SraInstr,
    SravInstr,
    SrlInstr,
    SrlvInstr,
};
