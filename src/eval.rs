pub mod athrow;
pub mod branch;
pub mod dastore;
pub mod getstatic;
pub mod iarith;
pub mod invoke;
pub mod ipush;
pub mod lconst;
pub mod locals;
pub mod monitorenter;
pub mod new;
pub mod putstatic;
