use vstd::prelude::*;
use vstd::utf8::valid_utf8;
use vstd::string::StringSliceAdditionalSpecFns;

verus! {

/// The kind of a protocol message, read from its three-byte tag.
#[derive(Clone, Copy, Debug, PartialEq, Eq, Structural)]
#[allow(non_camel_case_types, clippy::upper_case_acronyms)]
pub enum MessageType {
    NONE,
    CMD,
    BUF,
}

/// Why a buffer is not a message.
#[derive(Copy, Clone, Debug)]
pub struct MessageError {
    pub msg: &'static str,
}

/// Length of the type tag at the start of a message.
pub const MSG_TYPE_MAX_LEN: usize = 3;

/// A buffer holds a message only when it is longer than this.
pub const MIN_BUF_LEN: usize = 5;

/// A message: its buffer, its type, and the byte ranges of its body and
/// of its options.
pub struct Message {
    buf: Vec<u8>,
    kind: MessageType,
    body: (usize, usize),
    opts: (usize, usize),
}

/// The bytes that `u8::is_ascii_whitespace` accepts.
pub open spec fn is_ascii_ws(c: u8) -> bool {
    c == 0x20u8 || c == 0x09u8 || c == 0x0au8 || c == 0x0cu8 || c == 0x0du8
}

/// The type that a tag names, if any: "BUF", "CMD", or the empty tag.
pub open spec fn tag_type(tag: Seq<u8>) -> Option<MessageType> {
    if tag.len() == 0 {
        Some(MessageType::NONE)
    } else if tag == seq![0x42u8, 0x55u8, 0x46u8] {
        Some(MessageType::BUF)
    } else if tag == seq![0x43u8, 0x4du8, 0x44u8] {
        Some(MessageType::CMD)
    } else {
        None
    }
}

/// Index of the first ASCII whitespace byte of `b` at or after `i`, or the
/// length of `b` when there is none.
pub open spec fn first_ws_from(b: Seq<u8>, i: int) -> int
    decreases b.len() - i,
{
    if i >= b.len() {
        b.len() as int
    } else if is_ascii_ws(b[i]) {
        i
    } else {
        first_ws_from(b, i + 1)
    }
}

/// Where the body of a message in `b` ends.
pub open spec fn body_end(b: Seq<u8>) -> int {
    first_ws_from(b, MSG_TYPE_MAX_LEN as int + 1)
}

/// The byte range of the body: from after the tag and its space to the
/// first whitespace.
pub open spec fn body_range(b: Seq<u8>) -> (int, int) {
    (MSG_TYPE_MAX_LEN as int + 1, body_end(b))
}

/// The byte range of the options: what follows the whitespace after the
/// body, or nothing when the body runs to the end.
pub open spec fn opts_range(b: Seq<u8>) -> (int, int) {
    if body_end(b) < b.len() {
        (body_end(b) + 1, b.len() as int)
    } else {
        (0, 0)
    }
}

/// The bytes of `b` in the range `r`.
pub open spec fn bytes_in(b: Seq<u8>, r: (int, int)) -> Seq<u8> {
    b.subrange(r.0, r.1)
}

/// A buffer is a message when it is long enough and starts with a known
/// tag and a space.
pub open spec fn is_message(b: Seq<u8>) -> bool {
    &&& b.len() > MIN_BUF_LEN
    &&& tag_type(b.subrange(0, MSG_TYPE_MAX_LEN as int)) is Some
    &&& b[MSG_TYPE_MAX_LEN as int] == 0x20u8
}

/// Relies on std::str::from_utf8: it succeeds exactly on well-formed UTF-8,
/// and the text it hands back is made of the given bytes.
#[verifier::external_body]
fn utf8_text(b: &[u8]) -> (r: Option<&str>)
    ensures
        r is Some <==> valid_utf8(b@),
        r matches Some(s) ==> s.spec_bytes() == b@,
{
    std::str::from_utf8(b).ok()
}

/// Whether `c` is ASCII whitespace, as `u8::is_ascii_whitespace` says.
fn is_space(c: u8) -> (r: bool)
    ensures
        r == is_ascii_ws(c),
{
    c == 0x20u8 || c == 0x09u8 || c == 0x0au8 || c == 0x0cu8 || c == 0x0du8
}

/// Whether two byte strings are equal.
fn same_bytes(a: &[u8], b: &[u8]) -> (r: bool)
    ensures
        r == (a@ == b@),
{
    if a.len() != b.len() {
        return false;
    }
    let mut i: usize = 0;
    while i < a.len()
        invariant
            a@.len() == b@.len(),
            i <= a@.len(),
            forall|j: int| 0 <= j < i ==> a@[j] == b@[j],
        decreases a@.len() - i,
    {
        if a[i] != b[i] {
            return false;
        }
        i = i + 1;
    }
    assert(a@ =~= b@);
    true
}

impl Message {
    pub closed spec fn spec_type(&self) -> MessageType {
        self.kind
    }

    pub closed spec fn body_bytes(&self) -> Seq<u8> {
        self.buf@.subrange(self.body.0 as int, self.body.1 as int)
    }

    pub closed spec fn opts_bytes(&self) -> Seq<u8> {
        self.buf@.subrange(self.opts.0 as int, self.opts.1 as int)
    }

    pub closed spec fn wf(&self) -> bool {
        &&& self.body.0 <= self.body.1 <= self.buf@.len()
        &&& self.opts.0 <= self.opts.1 <= self.buf@.len()
    }

    /// The empty message: no type, no body, no options.
    pub fn new() -> (r: Message)
        ensures
            r.wf(),
            r.spec_type() == MessageType::NONE,
            r.body_bytes() == Seq::<u8>::empty(),
            r.opts_bytes() == Seq::<u8>::empty(),
    {
        let r = Message { buf: Vec::new(), kind: MessageType::NONE, body: (0, 0), opts: (0, 0) };
        proof {
            assert(r.body_bytes() =~= Seq::<u8>::empty());
            assert(r.opts_bytes() =~= Seq::<u8>::empty());
        }
        r
    }

    /// Parses a buffer of the form `TAG body[ options]`: a three-byte tag
    /// ("CMD" or "BUF"), one space, a body that runs to the next ASCII
    /// whitespace, and options that run from after that whitespace to the
    /// end. Fails on a buffer of at most five bytes, an unknown tag, or a
    /// missing space.
    pub fn from_buf(buf: Vec<u8>) -> (r: Result<Message, MessageError>)
        ensures
            r is Ok <==> is_message(buf@),
            r matches Ok(m) ==> {
                &&& m.wf()
                &&& tag_type(buf@.subrange(0, MSG_TYPE_MAX_LEN as int)) == Some(m.spec_type())
                &&& m.body_bytes() == bytes_in(buf@, body_range(buf@))
                &&& m.opts_bytes() == bytes_in(buf@, opts_range(buf@))
            },
            r matches Err(e) ==> e.msg@ == "Invalid message buffer"@,
    {
        let error = MessageError { msg: "Invalid message buffer" };
        if buf.len() <= MIN_BUF_LEN {
            return Err(error);
        }
        let kind = match Self::type_of_tag(&buf.as_slice()[0..MSG_TYPE_MAX_LEN]) {
            Some(t) => t,
            None => {
                return Err(error);
            },
        };
        if buf[MSG_TYPE_MAX_LEN] != 0x20u8 {
            return Err(error);
        }
        let start: usize = MSG_TYPE_MAX_LEN + 1;
        let mut n: usize = start;
        while n < buf.len() && !is_space(buf[n])
            invariant
                start <= n <= buf@.len(),
                first_ws_from(buf@, n as int) == body_end(buf@),
            decreases buf@.len() - n,
        {
            n = n + 1;
        }
        let body = (start, n);
        let opts = if n < buf.len() {
            (n + 1, buf.len())
        } else {
            (0, 0)
        };
        Ok(Message { buf, kind, body, opts })
    }

    /// The type of the message.
    pub fn message_type(&self) -> (r: MessageType)
        ensures
            r == self.spec_type(),
    {
        self.kind
    }

    /// The body of the message, as text; it must be UTF-8.
    pub fn body(&self) -> (r: &str)
        requires
            self.wf(),
            valid_utf8(self.body_bytes()),
        ensures
            r.spec_bytes() == self.body_bytes(),
    {
        match utf8_text(&self.buf.as_slice()[self.body.0..self.body.1]) {
            Some(s) => s,
            None => {
                proof {
                    assert(false);
                }
                ""
            },
        }
    }

    /// The options of the message, as text (empty when there are none); they
    /// must be UTF-8.
    pub fn options(&self) -> (r: &str)
        requires
            self.wf(),
            valid_utf8(self.opts_bytes()),
        ensures
            r.spec_bytes() == self.opts_bytes(),
    {
        match utf8_text(&self.buf.as_slice()[self.opts.0..self.opts.1]) {
            Some(s) => s,
            None => {
                proof {
                    assert(false);
                }
                ""
            },
        }
    }

    /// The type named by a tag: "BUF", "CMD", or the empty tag.
    pub fn get_message_type(str_msg_type: &str) -> (r: Option<MessageType>)
        ensures
            r == tag_type(str_msg_type.spec_bytes()),
    {
        Self::type_of_tag(str_msg_type.as_bytes())
    }

    fn type_of_tag(tag: &[u8]) -> (r: Option<MessageType>)
        ensures
            r == tag_type(tag@),
    {
        let buf_tag: [u8; 3] = [0x42u8, 0x55u8, 0x46u8];
        let cmd_tag: [u8; 3] = [0x43u8, 0x4du8, 0x44u8];
        proof {
            assert(buf_tag@ =~= seq![0x42u8, 0x55u8, 0x46u8]);
            assert(cmd_tag@ =~= seq![0x43u8, 0x4du8, 0x44u8]);
        }
        if tag.len() == 0 {
            Some(MessageType::NONE)
        } else if same_bytes(tag, buf_tag.as_slice()) {
            Some(MessageType::BUF)
        } else if same_bytes(tag, cmd_tag.as_slice()) {
            Some(MessageType::CMD)
        } else {
            None
        }
    }
}

} // verus!
