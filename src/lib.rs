// A per-principal rule registry with a fixed-size binary control protocol
// and an offset-paged textual dump.
//
// rule      bounded rule values and the error kinds
// registry  the registry, its model and its operations
// dump      the deterministic rendering of entries
// paged     offset-addressed reads of the rendered dump
// codec     the fixed-size request records and the bounded response
// ioctl     the request dispatcher
// laws      properties relating add, remove and query
// lock      lock-kind markers
// i2c       the I2C message segment
pub mod rule;
pub mod registry;
pub mod dump;
pub mod paged;
pub mod codec;
pub mod ioctl;
pub mod laws;
pub mod lock;
pub mod i2c;
