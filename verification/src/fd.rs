//! Descriptor sharing across `fork`/`exec`. Linux descriptors survive
//! `execve` only when their close-on-exec flag is cleared; every pipe here
//! is allocated with the flag set on both ends, and this module centralises
//! the operation of clearing it, recording which end of a pipe has been
//! published to a child so that a later attempt to consume that end as a
//! parent-side I/O object is ruled out by contract rather than discovered as
//! a silent race.

use vstd::prelude::*;

use crate::error::AppError;
use crate::numfmt::fmt_i64;

verus! {

/// An owned file descriptor, closed when dropped. Opaque to the verifier.
#[verifier::external_type_specification]
#[verifier::external_body]
pub struct ExOwnedFd(rustix::fd::OwnedFd);

/// Relies on `rustix::pipe::pipe_with`: allocates a pipe with
/// close-on-exec set on both ends, so no child inherits an end before it
/// is deliberately shared; returns (read end, write end); the error is the
/// raw errno.
#[verifier::external_body]
pub(crate) fn sys_pipe() -> Result<(rustix::fd::OwnedFd, rustix::fd::OwnedFd), i32> {
    match rustix::pipe::pipe_with(rustix::pipe::PipeFlags::CLOEXEC) {
        Ok(ends) => Ok(ends),
        Err(e) => Err(e.raw_os_error()),
    }
}

/// Relies on `rustix::io::fcntl_setfd`: clears every descriptor flag, in
/// particular close-on-exec, so children inherit the descriptor; the error
/// is the raw errno.
#[verifier::external_body]
pub(crate) fn sys_clear_cloexec(fd: &rustix::fd::OwnedFd) -> Result<(), i32> {
    match rustix::io::fcntl_setfd(fd, rustix::io::FdFlags::empty()) {
        Ok(()) => Ok(()),
        Err(e) => Err(e.raw_os_error()),
    }
}

/// Relies on `rustix::fd::AsRawFd`: the descriptor's number.
#[verifier::external_body]
pub(crate) fn sys_raw_fd(fd: &rustix::fd::OwnedFd) -> i32 {
    rustix::fd::AsRawFd::as_raw_fd(fd)
}

/// Relies on `rustix::io::read`: reads at most one byte; `Ok(None)` is
/// end-of-file, the error is the raw errno.
#[verifier::external_body]
pub(crate) fn sys_read_byte(fd: &rustix::fd::OwnedFd) -> Result<Option<u8>, i32> {
    let mut buf = [0u8; 1];
    match rustix::io::read(fd, &mut buf) {
        Ok(0) => Ok(None),
        Ok(_) => Ok(Some(buf[0])),
        Err(e) => Err(e.raw_os_error()),
    }
}

/// Relies on `rustix::io::write`: writes the one given byte, returning how
/// many bytes were accepted; the error is the raw errno.
#[verifier::external_body]
pub(crate) fn sys_write_byte(fd: &rustix::fd::OwnedFd, b: u8) -> (r: Result<usize, i32>)
    ensures
        r matches Ok(n) ==> n <= 1,
{
    let buf = [b; 1];
    match rustix::io::write(fd, &buf) {
        Ok(n) => Ok(n),
        Err(e) => Err(e.raw_os_error()),
    }
}

/// Whether a descriptor is still parent-exclusive or has been published to
/// children.
#[derive(Debug, Clone, Copy, PartialEq, Eq, Structural)]
pub enum FdState {
    /// Parent-exclusive; will close on drop and may be consumed for I/O.
    Owned,
    /// Close-on-exec cleared and the descriptor promised to a child; the
    /// parent must no longer consume it.
    Shared,
}

/// What sharing does to a descriptor's state: it is monotonic (a shared
/// descriptor never returns to `Owned`) and idempotent.
pub open spec fn share_state(s: FdState) -> FdState {
    FdState::Shared
}

/// Sharing a descriptor twice leaves exactly the state of sharing it once,
/// and a shared descriptor stays shared.
pub proof fn lemma_share_idempotent(s: FdState)
    ensures
        share_state(share_state(s)) == share_state(s),
        share_state(FdState::Shared) == FdState::Shared,
{
}

/// A descriptor together with its sharing state.
#[derive(Debug)]
pub struct FdStatus {
    fd: rustix::fd::OwnedFd,
    state: FdState,
}

impl FdStatus {
    /// Whether the descriptor has been published to a child.
    pub closed spec fn is_shared(&self) -> bool {
        self.state is Shared
    }

    /// Wraps a freshly allocated, parent-exclusive descriptor.
    pub fn new(fd: rustix::fd::OwnedFd) -> (r: FdStatus)
        ensures
            !r.is_shared(),
    {
        FdStatus { fd, state: FdState::Owned }
    }

    /// Whether the descriptor has been published to a child.
    pub fn shared(&self) -> (r: bool)
        ensures
            r == self.is_shared(),
    {
        matches!(self.state, FdState::Shared)
    }

    /// Clears close-on-exec and marks the descriptor shared. Idempotent: on
    /// an already shared descriptor nothing is done and the call succeeds.
    /// On failure the state is unchanged and the error names the
    /// descriptor and the errno.
    pub fn share(&mut self) -> (r: Result<(), AppError>)
        ensures
            r is Ok ==> final(self).is_shared(),
            r is Err ==> final(self).is_shared() == old(self).is_shared(),
            old(self).is_shared() ==> r is Ok,
            r matches Err(e) ==> e matches AppError::FdShareFailed(_, _),
    {
        match self.state {
            FdState::Shared => Ok(()),
            FdState::Owned => {
                match sys_clear_cloexec(&self.fd) {
                    Ok(()) => {
                        self.state = FdState::Shared;
                        Ok(())
                    },
                    Err(errno) => Err(AppError::FdShareFailed(sys_raw_fd(&self.fd), errno)),
                }
            },
        }
    }

    /// Consumes the descriptor as a parent-side I/O object. A shared
    /// descriptor must never be consumed this way: the parent would race
    /// with the child it promised the descriptor to.
    pub fn take_part(self) -> rustix::fd::OwnedFd
        requires
            !self.is_shared(),
    {
        self.fd
    }

    /// The descriptor's number, permitted in either state: rendering a
    /// shared descriptor on a command line is exactly what sharing is for.
    pub fn raw_fd(&self) -> i32 {
        sys_raw_fd(&self.fd)
    }

    /// The descriptor's number rendered in decimal, as it is placed on the
    /// command line of a child.
    pub fn fd_arg(&self) -> String {
        fmt_i64(self.raw_fd() as i64)
    }
}

/// The two ends of a pipe, each tracked by its sharing state. Either end may
/// be published to a child; the opposite end is then consumed as the
/// parent-side reader or writer.
#[derive(Debug)]
pub struct SharedPipe {
    rx: FdStatus,
    tx: FdStatus,
}

impl SharedPipe {
    pub closed spec fn rx_shared(&self) -> bool {
        self.rx.is_shared()
    }

    pub closed spec fn tx_shared(&self) -> bool {
        self.tx.is_shared()
    }

    /// Allocates a pipe; both ends start parent-exclusive. Failure is a
    /// pipe-allocation error carrying the errno.
    pub fn new() -> (r: Result<SharedPipe, AppError>)
        ensures
            r matches Ok(p) ==> !p.rx_shared() && !p.tx_shared(),
            r matches Err(e) ==> e matches AppError::PipeAlloc(_),
    {
        match sys_pipe() {
            Ok((rx, tx)) => Ok(SharedPipe { rx: FdStatus::new(rx), tx: FdStatus::new(tx) }),
            Err(errno) => Err(AppError::PipeAlloc(errno)),
        }
    }

    /// Publishes the read end to children. Idempotent: on an already
    /// shared end nothing is done and the call succeeds.
    pub fn share_rx(&mut self) -> (r: Result<(), AppError>)
        ensures
            r is Ok ==> final(self).rx_shared(),
            final(self).tx_shared() == old(self).tx_shared(),
            r is Err ==> final(self).rx_shared() == old(self).rx_shared(),
            old(self).rx_shared() ==> r is Ok,
            r matches Err(e) ==> e matches AppError::FdShareFailed(_, _),
    {
        self.rx.share()
    }

    /// Publishes the write end to children. Idempotent: on an already
    /// shared end nothing is done and the call succeeds.
    pub fn share_tx(&mut self) -> (r: Result<(), AppError>)
        ensures
            r is Ok ==> final(self).tx_shared(),
            final(self).rx_shared() == old(self).rx_shared(),
            r is Err ==> final(self).tx_shared() == old(self).tx_shared(),
            old(self).tx_shared() ==> r is Ok,
            r matches Err(e) ==> e matches AppError::FdShareFailed(_, _),
    {
        self.tx.share()
    }

    /// The read end's number in decimal, for the command line.
    pub fn rx_fd_arg(&self) -> String {
        self.rx.fd_arg()
    }

    /// The write end's number in decimal, for the command line.
    pub fn tx_fd_arg(&self) -> String {
        self.tx.fd_arg()
    }

    /// The read end's raw number.
    pub fn rx_raw_fd(&self) -> i32 {
        self.rx.raw_fd()
    }

    /// The write end's raw number.
    pub fn tx_raw_fd(&self) -> i32 {
        self.tx.raw_fd()
    }

    /// Consumes the pipe into its parent-side read end; the write end is
    /// dropped, which closes it. The read end must not have been shared.
    pub fn into_rx(self) -> rustix::fd::OwnedFd
        requires
            !self.rx_shared(),
    {
        self.rx.take_part()
    }

    /// Consumes the pipe into its parent-side write end; the read end is
    /// dropped, which closes it. The write end must not have been shared.
    pub fn into_tx(self) -> rustix::fd::OwnedFd
        requires
            !self.tx_shared(),
    {
        self.tx.take_part()
    }
}

} // verus!
