//! Typed groups of native constants.
//!
//! Each group is a tuple struct over the integer the platform uses. The named
//! values of a group are associated constants of that integer type, so a typed
//! value is written `LANG(LANG::ENGLISH)`.

pub mod consts_ab;
pub mod consts_cd;
pub mod consts_ef;
pub mod consts_gh;
pub mod consts_kl;
pub mod consts_mn;
pub mod consts_opqr;
pub mod consts_qr;
pub mod consts_st;
pub mod consts_w;

pub use consts_ab::ACCESS_RIGHTS;
pub use consts_cd::CDRF;
pub use consts_cd::CLIP;
pub use consts_cd::CLSCTX;
pub use consts_cd::COINIT;
pub use consts_cd::CS;
pub use consts_cd::DLGID;
pub use consts_ef::ERROR;
pub use consts_gh::HDS;
pub use consts_gh::HRESULT;
pub use consts_kl::FW;
pub use consts_kl::KEY;
pub use consts_kl::LANG;
pub use consts_kl::LVCF;
pub use consts_mn::NM;
pub use consts_opqr::OUT;
pub use consts_qr::QS;
pub use consts_qr::QUALITY;
pub use consts_qr::REG;
pub use consts_qr::REGION;
pub use consts_qr::REG_OPTION;
pub use consts_qr::RRF;
pub use consts_st::STANDARD_RIGHTS;
pub use consts_st::SUBLANG;
pub use consts_st::TVE;
pub use consts_st::TVGN;
pub use consts_st::TVI;
pub use consts_st::TVIF;
pub use consts_st::TVIS;
pub use consts_w::WS;
pub use consts_w::WS_EX;
