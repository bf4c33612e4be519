//! Editor buffers: the candidate type and the parser for the editor bridge's
//! buffer listing, a flat JSON array of objects with known keys.

use vstd::prelude::*;

use crate::error::PmanError;
use crate::list::Searchable;
use crate::text::{
    basename, basename_spec, find_char_spec, parse_i64, parse_i64_spec, split_on, split_on_spec,
    split_once_char, split_str, split_str_spec, str_eq, trim, trim_char, trim_char_end,
    trim_char_end_spec, trim_char_spec, trim_char_start, trim_char_start_spec, trim_spec,
};

verus! {

/// One editor buffer as the bridge reports it.
#[derive(Clone, Debug)]
pub struct NvimBuffer {
    /// The buffer's number inside its editor instance.
    pub bufnr: i64,
    /// The buffer's file path; never empty for a listed buffer.
    pub name: String,
    /// Whether the buffer holds unsaved changes.
    pub modified: bool,
}

/// The spec-level shape of an [`NvimBuffer`].
pub struct NvimBufferV {
    /// See [`NvimBuffer::bufnr`].
    pub bufnr: i64,
    /// See [`NvimBuffer::name`].
    pub name: Seq<char>,
    /// See [`NvimBuffer::modified`].
    pub modified: bool,
}

impl View for NvimBuffer {
    type V = NvimBufferV;

    open spec fn view(&self) -> NvimBufferV {
        NvimBufferV { bufnr: self.bufnr, name: self.name@, modified: self.modified }
    }
}

impl NvimBuffer {
    /// The filter matches on the full path.
    pub fn search_text(&self) -> (r: String)
        ensures
            r@ == Searchable::search_spec(self),
    {
        self.name.clone()
    }

    /// The list line: the file's name, with a marker for unsaved changes.
    pub fn display_name(&self) -> (r: String)
        ensures
            r@ == Searchable::display_spec(self),
    {
        let base = basename(self.name.as_str());
        let mut r = if base.unicode_len() == 0 {
            String::from_str("[No Name]")
        } else {
            base.to_owned()
        };
        if self.modified {
            r.append(" [+]");
        }
        r
    }
}

impl Searchable for NvimBuffer {
    open spec fn search_spec(&self) -> Seq<char> {
        self.name@
    }

    open spec fn display_spec(&self) -> Seq<char> {
        let base = basename_spec(self.name@);
        let shown = if base.len() == 0 {
            "[No Name]"@
        } else {
            base
        };
        if self.modified {
            shown + " [+]"@
        } else {
            shown
        }
    }

    fn search_text(&self) -> (r: String)
        ensures
            r@ == self.search_spec(),
    {
        NvimBuffer::search_text(self)
    }

    fn display_name(&self) -> (r: String)
        ensures
            r@ == self.display_spec(),
    {
        NvimBuffer::display_name(self)
    }
}

/// The buffer number a field's value yields: the numeral's value, or zero.
pub open spec fn i64_field(value: Seq<char>) -> i64 {
    match parse_i64_spec(value) {
        Some(n) => n as i64,
        None => 0i64,
    }
}

/// The flag a field's value yields.
pub open spec fn bool_field(value: Seq<char>) -> bool {
    value == "1"@ || value == "true"@
}

/// How one `key: value` part changes the fields read so far (buffer number,
/// name, changed flag). A part without a colon, or with an unknown key, is
/// ignored.
pub open spec fn field_step(st: (i64, Seq<char>, bool), part: Seq<char>) -> (i64, Seq<char>, bool) {
    let p = trim_spec(part);
    let k = find_char_spec(p, ':');
    if k < p.len() {
        let key = trim_char_spec(trim_spec(p.take(k)), '"');
        let value = trim_spec(p.skip(k + 1));
        if key == "bufnr"@ {
            (i64_field(value), st.1, st.2)
        } else if key == "name"@ {
            (st.0, trim_char_spec(value, '"'), st.2)
        } else if key == "changed"@ {
            (st.0, st.1, bool_field(value))
        } else {
            st
        }
    } else {
        st
    }
}

/// The fields a sequence of comma-separated parts yields.
pub open spec fn fields_fold(parts: Seq<Seq<char>>) -> (i64, Seq<char>, bool)
    decreases parts.len(),
{
    if parts.len() == 0 {
        (0i64, Seq::<char>::empty(), false)
    } else {
        field_step(fields_fold(parts.drop_last()), parts.last())
    }
}

/// The buffer one object's text yields: braces stripped, fields read, and the
/// whole object dropped where no name was found.
pub open spec fn buffer_of_obj(obj: Seq<char>) -> Option<NvimBufferV> {
    let stripped = trim_char_end_spec(trim_char_start_spec(obj, '{'), '}');
    let f = fields_fold(split_on_spec(stripped, ','));
    if f.1.len() > 0 {
        Some(NvimBufferV { bufnr: f.0, name: f.1, modified: f.2 })
    } else {
        None
    }
}

/// The buffers a sequence of object texts yields, in order.
pub open spec fn buffers_fold(objs: Seq<Seq<char>>) -> Seq<NvimBufferV>
    decreases objs.len(),
{
    if objs.len() == 0 {
        Seq::<NvimBufferV>::empty()
    } else {
        let prefix = buffers_fold(objs.drop_last());
        match buffer_of_obj(objs.last()) {
            Some(b) => prefix.push(b),
            None => prefix,
        }
    }
}

/// The buffers a whole listing yields: anything but a bracketed array yields
/// none, else the array's objects in order.
pub open spec fn parse_buffer_json_spec(json: Seq<char>) -> Seq<NvimBufferV> {
    let t = trim_spec(json);
    if t.len() >= 2 && t[0] == '[' && t.last() == ']' {
        buffers_fold(split_str_spec(t.subrange(1, t.len() - 1), "},{"@))
    } else {
        Seq::<NvimBufferV>::empty()
    }
}

/// The spec-level shapes of a buffer vector.
pub open spec fn buffer_views(v: Seq<NvimBuffer>) -> Seq<NvimBufferV> {
    v.map_values(|b: NvimBuffer| b@)
}

/// Reads one object's text into a buffer, if it names a file.
fn parse_buffer_obj(obj: &str) -> (r: Option<NvimBuffer>)
    ensures
        match (r, buffer_of_obj(obj@)) {
            (Some(b), Some(v)) => b@ == v,
            (None, None) => true,
            _ => false,
        },
{
    let stripped = trim_char_end(trim_char_start(obj, '{'), '}');
    let parts = split_on(stripped, ',');
    let mut bufnr: i64 = 0;
    let mut name: String = String::new();
    let mut changed: bool = false;
    let mut i: usize = 0;
    proof {
        assert(parts.deep_view().take(0) =~= Seq::<Seq<char>>::empty());
    }
    while i < parts.len()
        invariant
            i <= parts.len(),
            parts.deep_view().len() == parts.len(),
            parts.deep_view() == split_on_spec(
                trim_char_end_spec(trim_char_start_spec(obj@, '{'), '}'),
                ',',
            ),
            (bufnr, name@, changed) == fields_fold(parts.deep_view().take(i as int)),
        decreases parts.len() - i,
    {
        proof {
            assert(parts.deep_view()[i as int] == parts@[i as int]@);
            assert(parts.deep_view().take(i + 1).drop_last() =~= parts.deep_view().take(i as int));
            assert(parts.deep_view().take(i + 1).last() == parts.deep_view()[i as int]);
        }
        let part = trim(parts[i].as_str());
        match split_once_char(part, ':') {
            Some((key_raw, value_raw)) => {
                let key = trim_char(trim(key_raw), '"');
                let value = trim(value_raw);
                if str_eq(key, "bufnr") {
                    bufnr = match parse_i64(value) {
                        Some(v) => v,
                        None => 0,
                    };
                } else if str_eq(key, "name") {
                    name = trim_char(value, '"').to_owned();
                } else if str_eq(key, "changed") {
                    changed = str_eq(value, "1") || str_eq(value, "true");
                }
            },
            None => {},
        }
        i += 1;
    }
    proof {
        assert(parts.deep_view().take(parts@.len() as int) =~= parts.deep_view());
    }
    if name.as_str().unicode_len() > 0 {
        Some(NvimBuffer { bufnr, name, modified: changed })
    } else {
        None
    }
}

/// Parses the editor bridge's buffer listing: a bracketed array of objects,
/// anything else yielding an empty listing. Objects without a file name are
/// skipped.
pub fn parse_buffer_json(json: &str) -> (r: Result<Vec<NvimBuffer>, PmanError>)
    ensures
        r matches Ok(v) && buffer_views(v@) == parse_buffer_json_spec(json@),
{
    let t = trim(json);
    let len = t.unicode_len();
    if !(len >= 2 && t.get_char(0) == '[' && t.get_char(len - 1) == ']') {
        proof {
            if t@.len() >= 2 {
                assert(t@.last() == t@[len - 1]);
            }
        }
        return Ok(Vec::new());
    }
    let inner = t.substring_char(1, len - 1);
    proof {
        assert(t@.last() == t@[len - 1]);
        assert(inner@ =~= t@.subrange(1, t@.len() - 1));
    }
    proof {
        reveal_strlit("},{");
    }
    let objs = split_str(inner, "},{");
    let mut out: Vec<NvimBuffer> = Vec::new();
    let mut i: usize = 0;
    proof {
        assert(objs.deep_view().take(0) =~= Seq::<Seq<char>>::empty());
        assert(buffer_views(out@) =~= buffers_fold(objs.deep_view().take(0)));
    }
    while i < objs.len()
        invariant
            i <= objs.len(),
            objs.deep_view().len() == objs.len(),
            buffer_views(out@) == buffers_fold(objs.deep_view().take(i as int)),
        decreases objs.len() - i,
    {
        proof {
            assert(objs.deep_view()[i as int] == objs@[i as int]@);
            assert(objs.deep_view().take(i + 1).drop_last() =~= objs.deep_view().take(i as int));
            assert(objs.deep_view().take(i + 1).last() == objs.deep_view()[i as int]);
        }
        let ghost old_out = out@;
        match parse_buffer_obj(objs[i].as_str()) {
            Some(b) => {
                out.push(b);
                proof {
                    assert(buffer_views(out@) =~= buffer_views(old_out).push(out@.last()@));
                }
            },
            None => {},
        }
        i += 1;
    }
    proof {
        assert(objs.deep_view().take(objs@.len() as int) =~= objs.deep_view());
    }
    Ok(out)
}

} // verus!
