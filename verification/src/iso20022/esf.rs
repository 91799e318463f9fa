//! ESF: a container of typed, length-prefixed fields behind a 16-byte
//! header.
//!
//! The header holds the magic number, the version, the message type, the
//! number of fields and the total length, all little-endian, and two
//! reserved bytes.  A field is its id (2 bytes, little-endian), its type
//! code, one length byte and its data.

use vstd::prelude::*;
use vstd::string::*;
use vstd::slice::slice_subrange;
use crate::iso20022::codes::{EsfFieldType, MessageType, PrivacyTier};
use crate::iso20022::error::Error;
use crate::iso20022::types::{Bic, Iban};

verus! {

/// ESF magic number: "ESF\0".
pub const ESF_MAGIC: u32 = 0x45534600;

/// ESF version.
pub const ESF_VERSION: u16 = 0x0100;

/// Length of the ESF header in bytes.
pub const ESF_HEADER_LEN: usize = 16;

/// The `n` low bytes of a number, least significant first.
pub open spec fn le_bytes(v: nat, n: nat) -> Seq<u8>
    decreases n,
{
    if n == 0 {
        Seq::<u8>::empty()
    } else {
        seq![(v % 256) as u8] + le_bytes(v / 256, (n - 1) as nat)
    }
}

/// The 16-bit number that two bytes spell, least significant first.
pub open spec fn le_u16(lo: u8, hi: u8) -> u16 {
    (lo + hi * 256) as u16
}

/// Appends the `n` low bytes of a number, least significant first.
pub fn push_le(out: &mut Vec<u8>, v: u128, n: u8)
    ensures
        final(out)@ == old(out)@ + le_bytes(v as nat, n as nat),
    decreases n,
{
    if n == 0 {
        assert(out@ =~= old(out)@ + le_bytes(v as nat, n as nat));
    } else {
        out.push((v % 256) as u8);
        let ghost mid = out@;
        push_le(out, v / 256, n - 1);
        assert(out@ =~= old(out)@ + le_bytes(v as nat, n as nat));
    }
}

/// One field of an ESF message.
#[derive(Debug, Clone)]
pub struct EsfField {
    /// Field id
    pub id: u16,
    /// Field type
    pub field_type: EsfFieldType,
    /// Privacy tier
    pub privacy: PrivacyTier,
    /// Field data
    pub data: Vec<u8>,
}

/// A field with its data as a byte sequence.
pub struct EsfFieldView {
    pub id: u16,
    pub field_type: EsfFieldType,
    pub privacy: PrivacyTier,
    pub data: Seq<u8>,
}

impl View for EsfField {
    type V = EsfFieldView;

    open spec fn view(&self) -> EsfFieldView {
        EsfFieldView {
            id: self.id,
            field_type: self.field_type,
            privacy: self.privacy,
            data: self.data@,
        }
    }
}

/// The views of a sequence of fields.
pub open spec fn field_views(fields: Seq<EsfField>) -> Seq<EsfFieldView> {
    Seq::new(fields.len(), |i: int| fields[i]@)
}

/// Privacy tier of a field id: header fields (0x0001 to 0x00FF) are
/// public, transaction ids and amounts (0x0100 to 0x02FF) restricted,
/// party names and account data (0x0300 to 0x04FF) private, remittance
/// data (0x0500 to 0x05FF) encrypted, every other id public.
pub open spec fn spec_privacy(field_id: u16) -> PrivacyTier {
    if 0x0001 <= field_id <= 0x00FF {
        PrivacyTier::Public
    } else if 0x0100 <= field_id <= 0x02FF {
        PrivacyTier::Restricted
    } else if 0x0300 <= field_id <= 0x04FF {
        PrivacyTier::Private
    } else if 0x0500 <= field_id <= 0x05FF {
        PrivacyTier::Encrypted
    } else {
        PrivacyTier::Public
    }
}

/// A field with the privacy tier of its id.
pub open spec fn spec_field(field_id: u16, field_type: EsfFieldType, data: Seq<u8>) -> EsfFieldView {
    EsfFieldView { id: field_id, field_type, privacy: spec_privacy(field_id), data }
}

/// The bytes of a field: id, type code, the length modulo 256, data.
pub open spec fn field_bytes(f: EsfFieldView) -> Seq<u8> {
    le_bytes(f.id as nat, 2) + seq![f.field_type.spec_code(), (f.data.len() % 256) as u8] + f.data
}

/// The bytes of a sequence of fields, in order.
pub open spec fn fields_bytes(fields: Seq<EsfFieldView>) -> Seq<u8>
    decreases fields.len(),
{
    if fields.len() == 0 {
        Seq::<u8>::empty()
    } else {
        fields_bytes(fields.drop_last()) + field_bytes(fields.last())
    }
}

/// The header: magic number, version, message type, number of fields
/// modulo 2^16, total length modulo 2^32, two reserved bytes.
pub open spec fn esf_header(msg_type: MessageType, count: nat, total: nat) -> Seq<u8> {
    le_bytes(ESF_MAGIC as nat, 4) + le_bytes(ESF_VERSION as nat, 2) + le_bytes(
        msg_type.spec_code() as nat,
        2,
    ) + le_bytes(count % 0x1_0000, 2) + le_bytes(total % 0x1_0000_0000, 4) + seq![0u8, 0u8]
}

/// A whole ESF message.
pub open spec fn spec_esf(msg_type: MessageType, fields: Seq<EsfFieldView>) -> Seq<u8> {
    esf_header(msg_type, fields.len(), 16 + fields_bytes(fields).len()) + fields_bytes(fields)
}

/// The 64-bit pattern of a signed number, in two's complement.
pub open spec fn unsigned_pattern(v: i64) -> nat {
    if v < 0 {
        (v + 0x1_0000_0000_0000_0000) as nat
    } else {
        v as nat
    }
}

/// ESF message builder.
pub struct EsfBuilder {
    msg_type: MessageType,
    fields: Vec<EsfField>,
}

impl EsfBuilder {
    /// The message type.
    pub closed spec fn message_type(&self) -> MessageType {
        self.msg_type
    }

    /// The fields added so far.
    pub closed spec fn fields(&self) -> Seq<EsfFieldView> {
        field_views(self.fields@)
    }

    /// Create a new ESF builder for the given message type.
    pub fn new(msg_type: MessageType) -> (b: Self)
        ensures
            b.message_type() == msg_type,
            b.fields() == Seq::<EsfFieldView>::empty(),
    {
        let b = EsfBuilder { msg_type, fields: Vec::new() };
        assert(b.fields() =~= Seq::<EsfFieldView>::empty());
        b
    }

    /// Returns the number of fields added so far.
    pub fn field_count(&self) -> (n: usize)
        ensures
            n == self.fields().len(),
    {
        self.fields.len()
    }

    /// Get the privacy tier for a field id.
    pub fn get_privacy(field_id: u16) -> (p: PrivacyTier)
        ensures
            p == spec_privacy(field_id),
    {
        if 0x0001 <= field_id && field_id <= 0x00FF {
            PrivacyTier::Public
        } else if 0x0100 <= field_id && field_id <= 0x02FF {
            PrivacyTier::Restricted
        } else if 0x0300 <= field_id && field_id <= 0x04FF {
            PrivacyTier::Private
        } else if 0x0500 <= field_id && field_id <= 0x05FF {
            PrivacyTier::Encrypted
        } else {
            PrivacyTier::Public
        }
    }

    /// Adds a field of the given type and data.
    fn add_field(&mut self, field_id: u16, field_type: EsfFieldType, data: Vec<u8>)
        ensures
            final(self).message_type() == old(self).message_type(),
            final(self).fields() == old(self).fields().push(spec_field(field_id, field_type, data@)),
    {
        let field = EsfField {
            id: field_id,
            field_type,
            privacy: EsfBuilder::get_privacy(field_id),
            data,
        };
        self.fields.push(field);
        assert(self.fields() =~= old(self).fields().push(spec_field(field_id, field_type, data@)));
    }

    /// Add a string field: the bytes of the text.
    pub fn add_string(&mut self, field_id: u16, value: &str) -> (r: Result<(), Error>)
        ensures
            r is Ok,
            final(self).message_type() == old(self).message_type(),
            final(self).fields() == old(self).fields().push(
                spec_field(field_id, EsfFieldType::String, value.spec_bytes()),
            ),
    {
        self.add_field(field_id, EsfFieldType::String, value.as_bytes_vec());
        Ok(())
    }

    /// Add a date-time field: the seconds since the Unix epoch as 8 bytes,
    /// least significant first.
    pub fn add_datetime(&mut self, field_id: u16, unix_seconds: i64) -> (r: Result<(), Error>)
        ensures
            r is Ok,
            final(self).message_type() == old(self).message_type(),
            final(self).fields() == old(self).fields().push(
                spec_field(field_id, EsfFieldType::DateTime, le_bytes(unsigned_pattern(unix_seconds), 8)),
            ),
    {
        let pattern: u128 = if unix_seconds < 0 {
            ((unix_seconds as i128) + 0x1_0000_0000_0000_0000) as u128
        } else {
            unix_seconds as u128
        };
        let mut data: Vec<u8> = Vec::new();
        push_le(&mut data, pattern, 8);
        assert(data@ =~= le_bytes(unsigned_pattern(unix_seconds), 8));
        self.add_field(field_id, EsfFieldType::DateTime, data);
        Ok(())
    }

    /// Add a u32 field: 4 bytes, least significant first.
    pub fn add_u32(&mut self, field_id: u16, value: u32) -> (r: Result<(), Error>)
        ensures
            r is Ok,
            final(self).message_type() == old(self).message_type(),
            final(self).fields() == old(self).fields().push(
                spec_field(field_id, EsfFieldType::U32, le_bytes(value as nat, 4)),
            ),
    {
        let mut data: Vec<u8> = Vec::new();
        push_le(&mut data, value as u128, 4);
        assert(data@ =~= le_bytes(value as nat, 4));
        self.add_field(field_id, EsfFieldType::U32, data);
        Ok(())
    }

    /// Add an amount field: the amount in cents as 16 bytes, least
    /// significant first.
    pub fn add_amount(&mut self, field_id: u16, cents: u128) -> (r: Result<(), Error>)
        ensures
            r is Ok,
            final(self).message_type() == old(self).message_type(),
            final(self).fields() == old(self).fields().push(
                spec_field(field_id, EsfFieldType::U128, le_bytes(cents as nat, 16)),
            ),
    {
        let mut data: Vec<u8> = Vec::new();
        push_le(&mut data, cents, 16);
        assert(data@ =~= le_bytes(cents as nat, 16));
        self.add_field(field_id, EsfFieldType::U128, data);
        Ok(())
    }

    /// Add an enum field: the bytes of its code.
    pub fn add_enum(&mut self, field_id: u16, code: &str) -> (r: Result<(), Error>)
        ensures
            r is Ok,
            final(self).message_type() == old(self).message_type(),
            final(self).fields() == old(self).fields().push(
                spec_field(field_id, EsfFieldType::Enum, code.spec_bytes()),
            ),
    {
        self.add_field(field_id, EsfFieldType::Enum, code.as_bytes_vec());
        Ok(())
    }

    /// Add a BIC field: the bytes of its text.
    pub fn add_bic(&mut self, field_id: u16, bic: &Bic) -> (r: Result<(), Error>)
        ensures
            r is Ok,
            final(self).message_type() == old(self).message_type(),
            final(self).fields() == old(self).fields().push(
                spec_field(field_id, EsfFieldType::Bic, vstd::utf8::encode_utf8(bic.0@)),
            ),
    {
        self.add_field(field_id, EsfFieldType::Bic, bic.0.as_str().as_bytes_vec());
        Ok(())
    }

    /// Add an IBAN field: the bytes of its text.
    pub fn add_iban(&mut self, field_id: u16, iban: &Iban) -> (r: Result<(), Error>)
        ensures
            r is Ok,
            final(self).message_type() == old(self).message_type(),
            final(self).fields() == old(self).fields().push(
                spec_field(field_id, EsfFieldType::Iban, vstd::utf8::encode_utf8(iban.0@)),
            ),
    {
        self.add_field(field_id, EsfFieldType::Iban, iban.0.as_str().as_bytes_vec());
        Ok(())
    }

    /// Build the final ESF message: the header, then every field in the
    /// order in which it was added.
    pub fn build(self) -> (r: Result<Vec<u8>, Error>)
        ensures
            r matches Ok(bytes) && bytes@ == spec_esf(self.message_type(), self.fields()),
    {
        let mut body: Vec<u8> = Vec::new();
        let mut i: usize = 0;
        assert(self.fields().subrange(0, 0) =~= Seq::<EsfFieldView>::empty());
        while i < self.fields.len()
            invariant
                0 <= i <= self.fields@.len(),
                self.fields().len() == self.fields@.len(),
                body@ == fields_bytes(self.fields().subrange(0, i as int)),
            decreases self.fields@.len() - i,
        {
            let ghost before = body@;
            assert(self.fields().subrange(0, i + 1).drop_last() =~= self.fields().subrange(
                0,
                i as int,
            ));
            assert(self.fields().subrange(0, i + 1).last() == self.fields@[i as int]@);
            push_le(&mut body, self.fields[i].id as u128, 2);
            body.push(self.fields[i].field_type.code());
            body.push((self.fields[i].data.len() % 256) as u8);
            let mut k: usize = 0;
            let ghost head = body@;
            while k < self.fields[i].data.len()
                invariant
                    0 <= k <= self.fields@[i as int].data@.len(),
                    i < self.fields@.len(),
                    body@ == head + self.fields@[i as int].data@.subrange(0, k as int),
                decreases self.fields@[i as int].data@.len() - k,
            {
                body.push(self.fields[i].data[k]);
                assert(body@ =~= head + self.fields@[i as int].data@.subrange(0, k + 1));
                k = k + 1;
            }
            assert(self.fields@[i as int].data@.subrange(0, k as int)
                =~= self.fields@[i as int].data@);
            assert(body@ =~= before + field_bytes(self.fields@[i as int]@));
            i = i + 1;
        }
        assert(self.fields().subrange(0, i as int) =~= self.fields());
        let total: u128 = (16 + (body.len() as u128)) % 0x1_0000_0000;
        let count: u128 = (self.fields.len() as u128) % 0x1_0000;
        let mut output: Vec<u8> = Vec::new();
        push_le(&mut output, ESF_MAGIC as u128, 4);
        push_le(&mut output, ESF_VERSION as u128, 2);
        push_le(&mut output, self.msg_type.code() as u128, 2);
        push_le(&mut output, count, 2);
        push_le(&mut output, total, 4);
        output.push(0);
        output.push(0);
        assert(output@ =~= esf_header(
            self.message_type(),
            self.fields().len(),
            16 + fields_bytes(self.fields()).len(),
        ));
        let ghost header = output@;
        let mut j: usize = 0;
        while j < body.len()
            invariant
                0 <= j <= body@.len(),
                output@ == header + body@.subrange(0, j as int),
            decreases body@.len() - j,
        {
            output.push(body[j]);
            assert(output@ =~= header + body@.subrange(0, j + 1));
            j = j + 1;
        }
        assert(body@.subrange(0, j as int) =~= body@);
        Ok(output)
    }
}

/// What a reader finds at an offset: the field and the offset behind it,
/// or nothing where fewer than 4 bytes are left or the field's data would
/// pass the end.
pub open spec fn spec_next_field(data: Seq<u8>, offset: int) -> Option<(u16, EsfFieldType, Seq<u8>, int)> {
    if offset < 0 || offset + 4 > data.len() {
        None
    } else if offset + 4 + data[offset + 3] > data.len() {
        None
    } else {
        Some(
            (
                le_u16(data[offset], data[offset + 1]),
                EsfFieldType::spec_read_code(data[offset + 2]),
                data.subrange(offset + 4, offset + 4 + data[offset + 3]),
                offset + 4 + data[offset + 3],
            ),
        )
    }
}

/// ESF message reader.
pub struct EsfReader<'a> {
    data: &'a [u8],
    offset: usize,
}

impl<'a> EsfReader<'a> {
    /// The bytes of the message.
    pub closed spec fn data(&self) -> Seq<u8> {
        self.data@
    }

    /// The offset of the next field.
    pub closed spec fn offset(&self) -> int {
        self.offset as int
    }

    /// Validity of a reader: the message has its header, and the offset
    /// lies behind the header and within the message.
    pub open spec fn wf(&self) -> bool {
        16 <= self.offset() <= self.data().len()
    }

    /// Create a reader from ESF bytes.  A message of fewer than 16 bytes,
    /// or one that does not begin with the magic number, is refused.
    pub fn new(data: &'a [u8]) -> (r: Result<Self, Error>)
        ensures
            data@.len() < 16 ==> (r matches Err(Error::EsfConversion { message }) && message@
                == "ESF message too short"@),
            data@.len() >= 16 && data@.subrange(0, 4) != le_bytes(ESF_MAGIC as nat, 4) ==> (
            r matches Err(Error::EsfConversion { message }) && message@
                == "Invalid ESF magic number"@),
            data@.len() >= 16 && data@.subrange(0, 4) == le_bytes(ESF_MAGIC as nat, 4) ==> (
            r matches Ok(reader) && reader.wf() && reader.data() == data@ && reader.offset()
                == 16),
    {
        if data.len() < ESF_HEADER_LEN {
            return Err(Error::EsfConversion { message: "ESF message too short".to_owned() });
        }
        proof {
            reveal_with_fuel(le_bytes, 5);
            assert(le_bytes(ESF_MAGIC as nat, 4) =~= seq![0x00u8, 0x46u8, 0x53u8, 0x45u8]);
        }
        if data[0] != 0x00 || data[1] != 0x46 || data[2] != 0x53 || data[3] != 0x45 {
            assert(data@.subrange(0, 4) != le_bytes(ESF_MAGIC as nat, 4)) by {
                let m = le_bytes(ESF_MAGIC as nat, 4);
                let s = data@.subrange(0, 4);
                assert(s[0] == data@[0] && s[1] == data@[1] && s[2] == data@[2] && s[3]
                    == data@[3]);
                assert(m[0] == 0x00u8 && m[1] == 0x46u8 && m[2] == 0x53u8 && m[3] == 0x45u8);
            }
            return Err(Error::EsfConversion { message: "Invalid ESF magic number".to_owned() });
        }
        assert(data@.subrange(0, 4) =~= le_bytes(ESF_MAGIC as nat, 4));
        Ok(EsfReader { data, offset: ESF_HEADER_LEN })
    }

    /// Get the message type.
    pub fn message_type(&self) -> (r: Option<MessageType>)
        requires
            self.wf(),
        ensures
            r == MessageType::spec_from_code(le_u16(self.data()[6], self.data()[7])),
    {
        let code: u16 = (self.data[6] as u16) + (self.data[7] as u16) * 256;
        MessageType::from_code(code)
    }

    /// Get the field count.
    pub fn field_count(&self) -> (n: u16)
        requires
            self.wf(),
        ensures
            n == le_u16(self.data()[8], self.data()[9]),
    {
        (self.data[8] as u16) + (self.data[9] as u16) * 256
    }

    /// Read the next field: its id, its type and its data.  The reader
    /// moves behind the field; where there is no whole field left, it
    /// stays.
    pub fn next_field(&mut self) -> (r: Option<(u16, EsfFieldType, &'a [u8])>)
        requires
            old(self).wf(),
        ensures
            final(self).wf(),
            final(self).data() == old(self).data(),
            match spec_next_field(old(self).data(), old(self).offset()) {
                Some((id, field_type, data, next)) => (r matches Some((i, t, d)) && i == id && t
                    == field_type && d@ == data) && final(self).offset() == next,
                None => r is None && final(self).offset() == old(self).offset(),
            },
    {
        let data: &'a [u8] = self.data;
        let offset: usize = self.offset;
        if data.len() - offset < 4 {
            return None;
        }
        let field_id: u16 = (data[offset] as u16) + (data[offset + 1] as u16) * 256;
        let field_type: u8 = data[offset + 2];
        let field_len: usize = data[offset + 3] as usize;
        if data.len() - offset - 4 < field_len {
            return None;
        }
        let field_data: &'a [u8] = slice_subrange(data, offset + 4, offset + 4 + field_len);
        self.offset = offset + 4 + field_len;
        Some((field_id, EsfFieldType::read_code(field_type), field_data))
    }
}


/// The offset of the field at position `i` in a message of these fields.
pub open spec fn field_offset(fields: Seq<EsfFieldView>, i: int) -> int {
    16 + fields_bytes(fields.subrange(0, i)).len() as int
}

/// `le_bytes` gives as many bytes as it is asked for.
pub proof fn lemma_le_bytes_len(v: nat, n: nat)
    ensures
        le_bytes(v, n).len() == n,
    decreases n,
{
    if n > 0 {
        lemma_le_bytes_len(v / 256, (n - 1) as nat);
    }
}

/// The bytes of the first `i + 1` fields are those of the first `i`
/// fields, then those of the field at position `i`.
pub proof fn lemma_fields_bytes_step(fields: Seq<EsfFieldView>, i: int)
    requires
        0 <= i < fields.len(),
    ensures
        fields_bytes(fields.subrange(0, i + 1)) == fields_bytes(fields.subrange(0, i))
            + field_bytes(fields[i]),
{
    assert(fields.subrange(0, i + 1).drop_last() =~= fields.subrange(0, i));
    assert(fields.subrange(0, i + 1).last() == fields[i]);
}

/// The bytes of the first `i` fields begin the bytes of all fields.
pub proof fn lemma_fields_bytes_prefix(fields: Seq<EsfFieldView>, i: int)
    requires
        0 <= i <= fields.len(),
    ensures
        fields_bytes(fields.subrange(0, i)).len() <= fields_bytes(fields).len(),
        fields_bytes(fields).subrange(0, fields_bytes(fields.subrange(0, i)).len() as int)
            == fields_bytes(fields.subrange(0, i)),
    decreases fields.len() - i,
{
    if i == fields.len() {
        assert(fields.subrange(0, i) =~= fields);
        assert(fields_bytes(fields).subrange(0, fields_bytes(fields).len() as int)
            =~= fields_bytes(fields));
    } else {
        lemma_fields_bytes_prefix(fields, i + 1);
        lemma_fields_bytes_step(fields, i);
        let shorter = fields_bytes(fields.subrange(0, i));
        let longer = fields_bytes(fields.subrange(0, i + 1));
        assert(longer.subrange(0, shorter.len() as int) =~= shorter);
        assert(fields_bytes(fields).subrange(0, shorter.len() as int) =~= fields_bytes(
            fields,
        ).subrange(0, longer.len() as int).subrange(0, shorter.len() as int));
    }
}

/// Reading gives back what was built: in the message of a sequence of
/// fields, a reader at the offset of the field at position `i` finds that
/// field's id and data and the type that its code reads as, and moves to
/// the offset of the next field.  The field's data must fit the length
/// byte.  The header reads back as the message type and the number of
/// fields modulo 2^16.
pub proof fn lemma_read_back(msg_type: MessageType, fields: Seq<EsfFieldView>, i: int)
    requires
        0 <= i < fields.len(),
        fields[i].data.len() <= 255,
    ensures
        field_offset(fields, 0) == 16,
        spec_esf(msg_type, fields).len() == field_offset(fields, fields.len() as int),
        spec_next_field(spec_esf(msg_type, fields), field_offset(fields, i)) == Some(
            (
                fields[i].id,
                EsfFieldType::spec_read_code(fields[i].field_type.spec_code()),
                fields[i].data,
                field_offset(fields, i + 1),
            ),
        ),
        le_u16(spec_esf(msg_type, fields)[6], spec_esf(msg_type, fields)[7])
            == msg_type.spec_code(),
        le_u16(spec_esf(msg_type, fields)[8], spec_esf(msg_type, fields)[9]) as int
            == fields.len() % 0x1_0000,
        spec_esf(msg_type, fields).subrange(0, 4) == le_bytes(ESF_MAGIC as nat, 4),
{
    let body = fields_bytes(fields);
    let total: nat = 16 + body.len();
    let header = esf_header(msg_type, fields.len(), total);
    let data = spec_esf(msg_type, fields);
    reveal_with_fuel(le_bytes, 5);
    lemma_le_bytes_len(ESF_MAGIC as nat, 4);
    lemma_le_bytes_len(ESF_VERSION as nat, 2);
    lemma_le_bytes_len(msg_type.spec_code() as nat, 2);
    lemma_le_bytes_len(fields.len() % 0x1_0000, 2);
    lemma_le_bytes_len(total % 0x1_0000_0000, 4);
    assert(header.len() == 16);
    assert(fields.subrange(0, 0) =~= Seq::<EsfFieldView>::empty());
    assert(fields.subrange(0, fields.len() as int) =~= fields);
    // the header
    assert(header[6] == le_bytes(msg_type.spec_code() as nat, 2)[0]);
    assert(header[7] == le_bytes(msg_type.spec_code() as nat, 2)[1]);
    assert(header[8] == le_bytes(fields.len() % 0x1_0000, 2)[0]);
    assert(header[9] == le_bytes(fields.len() % 0x1_0000, 2)[1]);
    assert(data.subrange(0, 4) =~= le_bytes(ESF_MAGIC as nat, 4));
    // the field at position i
    let f = fields[i];
    let before = fields_bytes(fields.subrange(0, i));
    let through = fields_bytes(fields.subrange(0, i + 1));
    lemma_fields_bytes_step(fields, i);
    lemma_fields_bytes_prefix(fields, i + 1);
    lemma_le_bytes_len(f.id as nat, 2);
    let encoded = field_bytes(f);
    assert(encoded.len() == 4 + f.data.len());
    assert(through.len() == before.len() + 4 + f.data.len());
    let o: int = field_offset(fields, i);
    assert forall|t: int| 0 <= t < encoded.len() implies data[o + t] == encoded[t] by {
        assert(data[o + t] == body[before.len() + t]);
        assert(body.subrange(0, through.len() as int)[before.len() + t] == body[before.len()
            + t]);
        assert(through[before.len() + t] == encoded[t]);
    }
    assert(data[o] == encoded[0]);
    assert(data[o + 1] == encoded[1]);
    assert(data[o + 2] == encoded[2]);
    assert(data[o + 3] == encoded[3]);
    assert(encoded[0] == (f.id % 256) as u8);
    assert(encoded[1] == ((f.id / 256) % 256) as u8);
    assert(encoded[2] == f.field_type.spec_code());
    assert(encoded[3] == f.data.len() as u8);
    assert(data.subrange(o + 4, o + 4 + f.data.len()) =~= f.data) by {
        assert forall|t: int| 0 <= t < f.data.len() implies data[o + 4 + t] == f.data[t] by {
            assert(data[o + (4 + t)] == encoded[4 + t]);
        }
    }
}

} // verus!
