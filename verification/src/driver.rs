use vstd::prelude::*;
use vstd::string::StringSliceAdditionalSpecFns;

verus! {

/// Length of the name buffer that the memory device takes.
pub const TASK_NAME_LEN: usize = 512;

/// The byte buffer that a text of at most `TASK_NAME_LEN` bytes is copied into:
/// its bytes (as C chars) first, zeros after them.
pub open spec fn task_name_buffer(bytes: Seq<u8>) -> Seq<i8> {
    Seq::new(TASK_NAME_LEN as nat, |i: int| if i < bytes.len() { bytes[i] as i8 } else { 0i8 })
}

/// Handle on the memory device: a file descriptor once opened, `-1` before.
pub struct Driver {
    fd: i32,
}

impl Driver {
    /// The file descriptor that the handle holds.
    pub closed spec fn descriptor(&self) -> int {
        self.fd as int
    }

    /// A handle on no device yet.
    pub fn new() -> (d: Driver)
        ensures
            d.descriptor() == -1,
    {
        Driver { fd: -1 }
    }

    /// The file descriptor that the handle holds.
    pub fn fd(&self) -> (r: i32)
        ensures
            r == self.descriptor(),
    {
        self.fd
    }

    /// Records the descriptor of an opened device.
    pub fn set_descriptor(&mut self, fd: i32)
        ensures
            final(self).descriptor() == fd,
    {
        self.fd = fd;
    }

    /// Copies `text` into a zero-filled buffer of `TASK_NAME_LEN` C chars.
    pub fn str_to_cstr(text: &str) -> (buf: [i8; 512])
        requires
            text.spec_bytes().len() <= TASK_NAME_LEN,
        ensures
            buf@ == task_name_buffer(text.spec_bytes()),
            forall|i: int| 0 <= i < text.spec_bytes().len() ==> buf@[i] == text.spec_bytes()[i] as i8,
            forall|i: int| text.spec_bytes().len() <= i < 512 ==> buf@[i] == 0i8,
    {
        let bytes = text.as_bytes();
        let mut buf: [i8; 512] = [0; 512];
        let n = bytes.len();
        for i in 0..n
            invariant
                n == bytes@.len(),
                n <= TASK_NAME_LEN,
                bytes@ == text.spec_bytes(),
                buf@.len() == TASK_NAME_LEN,
                forall|j: int| 0 <= j < i ==> buf@[j] == bytes@[j] as i8,
                forall|j: int| i <= j < TASK_NAME_LEN ==> buf@[j] == 0i8,
        {
            buf[i] = bytes[i] as i8;
        }
        assert(buf@ =~= task_name_buffer(text.spec_bytes()));
        buf
    }
}

} // verus!
