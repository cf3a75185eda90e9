pub mod classfile;
pub mod descriptor;
pub mod dispatch;
pub mod eval;
pub mod frame;
pub mod heap;
pub mod model;
pub mod thread;
pub mod value;
pub mod vm;
