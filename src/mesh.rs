use vstd::prelude::*;

verus! {

/// Mesh indices of the built-in shapes in the loaded mesh table: the
/// character meshes come first, then the shape meshes in file order.
pub const CIRCLE: usize = 52;
pub const CIRCLE_BORDER: usize = 53;
pub const ROUNDED_RECTANGLE: usize = 54;
pub const RECTANGLE_BORDER: usize = 55;
pub const ROUNDED_RECTANGLE_BORDER: usize = 56;
pub const RECTANGLE: usize = 57;

/// A named contiguous range of the shared index buffer.
#[derive(Clone, Debug)]
pub struct ObjectData {
    pub name: Vec<u8>,
    pub index_count: usize,
    pub index_offset: usize,
}

/// The mathematical value of an [`ObjectData`].
pub struct MeshEntry {
    pub name: Seq<u8>,
    pub index_count: int,
    pub index_offset: int,
}

impl View for ObjectData {
    type V = MeshEntry;

    open spec fn view(&self) -> MeshEntry {
        MeshEntry {
            name: self.name@,
            index_count: self.index_count as int,
            index_offset: self.index_offset as int,
        }
    }
}

/// The coordinate fields of one vertex record, as written in the file.
#[derive(Clone, Debug)]
pub struct VertexFields {
    pub x: Vec<u8>,
    pub y: Vec<u8>,
    pub z: Vec<u8>,
}

pub type FieldsView = (Seq<u8>, Seq<u8>, Seq<u8>);

impl View for VertexFields {
    type V = FieldsView;

    open spec fn view(&self) -> FieldsView {
        (self.x@, self.y@, self.z@)
    }
}

/// The loaded mesh table: vertices (as coordinate fields), the global index
/// buffer and one entry per named mesh.
#[derive(Clone, Debug)]
pub struct ObjectPool {
    pub indices: Vec<u16>,
    pub vertices: Vec<VertexFields>,
    pub pool: Vec<ObjectData>,
}

#[derive(Clone, Copy, Debug, PartialEq, Eq, Structural)]
pub enum LoadError {
    /// A face field is not a decimal number from 1 to 65535.
    BadIndex,
    /// A rebased face index does not fit 16 bits.
    IndexOverflow,
    /// The running index count of the table does not fit `usize`.
    TooManyIndices,
}

pub open spec fn is_digit(b: u8) -> bool {
    48 <= b <= 57
}

pub open spec fn digits_value(s: Seq<u8>) -> int
    decreases s.len(),
{
    if s.len() == 0 {
        0
    } else {
        digits_value(s.drop_last()) * 10 + (s.last() - 48)
    }
}

pub open spec fn all_digits(d: Seq<u8>) -> bool {
    forall|i: int| 0 <= i < d.len() ==> is_digit(#[trigger] d[i])
}

/// A field without its optional leading `+`.
pub open spec fn unsigned_part(s: Seq<u8>) -> Seq<u8> {
    if s.len() > 0 && s[0] == 43 {
        s.drop_first()
    } else {
        s
    }
}

/// What `u16::from_str` makes of a field: an optional `+`, then at least one
/// decimal digit, for a value that fits 16 bits.
pub open spec fn parse_u16_spec(s: Seq<u8>) -> Option<u16> {
    let d = unsigned_part(s);
    if d.len() > 0 && all_digits(d) && digits_value(d) <= u16::MAX {
        Some(digits_value(d) as u16)
    } else {
        None
    }
}

proof fn lemma_digits_grow(s: Seq<u8>, k: int)
    requires
        0 <= k <= s.len(),
        forall|i: int| 0 <= i < s.len() ==> is_digit(#[trigger] s[i]),
    ensures
        digits_value(s.take(k)) <= digits_value(s),
        0 <= digits_value(s.take(k)),
    decreases s.len(),
{
    if s.len() > 0 {
        if k == s.len() {
            assert(s.take(k) =~= s);
            lemma_digits_grow(s.drop_last(), 0);
            assert(s.drop_last().take(0) =~= s.take(0));
        } else {
            lemma_digits_grow(s.drop_last(), k);
            assert(s.drop_last().take(k) =~= s.take(k));
            lemma_digits_grow(s.drop_last(), 0);
        }
    } else {
        assert(s.take(k) =~= s);
    }
}

/// Reads a decimal field as `u16::from_str` does.
pub fn parse_u16(s: &[u8]) -> (r: Option<u16>)
    ensures
        r == parse_u16_spec(s@),
{
    let start: usize = if s.len() > 0 && s[0] == 43 {
        1
    } else {
        0
    };
    let ghost d = unsigned_part(s@);
    assert(d =~= s@.subrange(start as int, s@.len() as int));
    if start >= s.len() {
        return None;
    }
    let mut value: u32 = 0;
    let mut i: usize = start;
    while i < s.len()
        invariant
            start <= i <= s@.len(),
            d == unsigned_part(s@),
            d =~= s@.subrange(start as int, s@.len() as int),
            forall|j: int| 0 <= j < i - start ==> is_digit(#[trigger] d[j]),
            value == digits_value(d.take(i - start)),
            value <= u16::MAX,
        decreases s@.len() - i,
    {
        let b = s[i];
        assert(d[i - start] == b);
        if b < 48 || b > 57 {
            assert(!is_digit(d[i - start]));
            assert(!all_digits(d));

            return None;
        }
        assert(d.take(i - start + 1).drop_last() =~= d.take(i - start));
        assert(d.take(i - start + 1).last() == b);
        value = value * 10 + (b - 48) as u32;
        i = i + 1;
        if value > 65535 {
            proof {
                if all_digits(d) {
                    lemma_digits_grow(d, i - start);
                }
            }
            return None;
        }
    }
    assert(d.take(i - start) =~= d);
    Some(value as u16)
}

/// The fields of a line separated by single spaces, as `str::split(' ')`
/// gives them: there is always at least one, and two spaces in a row give an
/// empty field.
pub open spec fn split_fields(s: Seq<u8>) -> Seq<Seq<u8>>
    decreases s.len(),
{
    if s.len() == 0 {
        seq![Seq::empty()]
    } else {
        let prev = split_fields(s.drop_last());
        if s.last() == 32 {
            prev.push(Seq::empty())
        } else {
            prev.update(prev.len() - 1, prev.last().push(s.last()))
        }
    }
}

proof fn lemma_split_nonempty(s: Seq<u8>)
    ensures
        split_fields(s).len() >= 1,
    decreases s.len(),
{
    if s.len() > 0 {
        lemma_split_nonempty(s.drop_last());
    }
}

pub open spec fn views_of(v: Seq<Vec<u8>>) -> Seq<Seq<u8>> {
    v.map_values(|t: Vec<u8>| t@)
}

/// Splits a line into its space-separated fields.
pub fn split_line(line: &[u8]) -> (r: Vec<Vec<u8>>)
    ensures
        views_of(r@) == split_fields(line@),
{
    let mut fields: Vec<Vec<u8>> = Vec::new();
    let mut cur: Vec<u8> = Vec::new();
    let mut i: usize = 0;
    while i < line.len()
        invariant
            i <= line@.len(),
            views_of(fields@).push(cur@) == split_fields(line@.take(i as int)),
        decreases line@.len() - i,
    {
        assert(line@.take(i as int + 1).drop_last() =~= line@.take(i as int));
        proof {
            lemma_split_nonempty(line@.take(i as int));
        }
        if line[i] == 32 {
            let ghost before = views_of(fields@);
            let ghost cur_v = cur@;
            let mut done: Vec<u8> = Vec::new();
            std::mem::swap(&mut done, &mut cur);
            fields.push(done);
            assert(views_of(fields@) =~= before.push(cur_v));
            assert(views_of(fields@).push(cur@) =~= before.push(cur_v).push(Seq::empty()));
        } else {
            let ghost before = views_of(fields@);
            cur.push(line[i]);
            assert(views_of(fields@).push(cur@) =~= split_fields(line@.take(i as int + 1)));
        }
        i = i + 1;
    }
    assert(line@.take(line@.len() as int) =~= line@);
    let ghost before = views_of(fields@);
    let ghost cur_v = cur@;
    fields.push(cur);
    assert(views_of(fields@) =~= before.push(cur_v));
    fields
}

/// The loader's state between two lines, as values.
pub struct LoadModel {
    pub indices: Seq<u16>,
    pub vertices: Seq<FieldsView>,
    pub meshes: Seq<MeshEntry>,
    pub vertex: FieldsView,
    pub object: MeshEntry,
    pub file_offset: int,
}

pub open spec fn zero_field() -> Seq<u8> {
    seq![48u8]
}

pub open spec fn initial_model() -> LoadModel {
    LoadModel {
        indices: Seq::empty(),
        vertices: Seq::empty(),
        meshes: Seq::empty(),
        vertex: (zero_field(), zero_field(), zero_field()),
        object: MeshEntry { name: Seq::empty(), index_count: 0, index_offset: 0 },
        file_offset: 0,
    }
}

/// The line is a record of the given kind: its letter, then a space.
pub open spec fn is_record(line: Seq<u8>, kind: u8) -> bool {
    line.len() >= 2 && line[0] == kind && line[1] == 32
}

/// The global index of a face field: the file-local, one-based vertex number
/// rebased by the vertices of the files before.
pub open spec fn face_index(field: Seq<u8>, offset: int) -> Result<u16, LoadError> {
    match parse_u16_spec(field) {
        None => Err(LoadError::BadIndex),
        Some(n) => if n == 0 {
            Err(LoadError::BadIndex)
        } else if offset + n - 1 > u16::MAX {
            Err(LoadError::IndexOverflow)
        } else {
            Ok((offset + n - 1) as u16)
        },
    }
}

/// The global indices of face fields 1 to `k - 1`, stopping at the first bad one.
pub open spec fn face_indices(fields: Seq<Seq<u8>>, offset: int, k: int) -> Result<Seq<u16>, LoadError>
    decreases k,
{
    if k <= 1 {
        Ok(Seq::empty())
    } else {
        match face_indices(fields, offset, k - 1) {
            Err(e) => Err(e),
            Ok(s) => match face_index(fields[k - 1], offset) {
                Ok(x) => Ok(s.push(x)),
                Err(e) => Err(e),
            },
        }
    }
}

proof fn lemma_face_err_stays(fields: Seq<Seq<u8>>, offset: int, k: int, end: int)
    requires
        k <= end,
        face_indices(fields, offset, k) is Err,
    ensures
        face_indices(fields, offset, end) == face_indices(fields, offset, k),
    decreases end - k,
{
    if k < end {
        lemma_face_err_stays(fields, offset, k, end - 1);
    }
}

proof fn lemma_face_len(fields: Seq<Seq<u8>>, offset: int, k: int)
    requires
        face_indices(fields, offset, k) is Ok,
    ensures
        face_indices(fields, offset, k).unwrap().len() == if k <= 1 {
            0
        } else {
            k - 1
        },
    decreases k,
{
    if k > 1 {
        lemma_face_len(fields, offset, k - 1);
    }
}

pub open spec fn min_int(a: int, b: int) -> int {
    if a < b {
        a
    } else {
        b
    }
}

pub open spec fn field_or(fields: Seq<Seq<u8>>, j: int, keep: Seq<u8>) -> Seq<u8> {
    if j < fields.len() {
        fields[j]
    } else {
        keep
    }
}

/// One line of a mesh file: `o name` closes the current mesh and opens the
/// next (the first one only takes its name), `v x y z` adds a vertex (a
/// missing coordinate keeps the previous vertex's), `f a b c` adds the rebased
/// indices of its (up to three) fields to the index buffer and to the open
/// mesh's range; anything else is ignored.
pub open spec fn apply_line(st: LoadModel, line: Seq<u8>) -> Result<LoadModel, LoadError> {
    let fields = split_fields(line);
    if is_record(line, 111) {
        let name = fields.last();
        if st.object.name.len() == 0 {
            Ok(
                LoadModel {
                    indices: st.indices,
                    vertices: st.vertices,
                    meshes: st.meshes,
                    vertex: st.vertex,
                    object: MeshEntry {
                        name,
                        index_count: st.object.index_count,
                        index_offset: st.object.index_offset,
                    },
                    file_offset: st.file_offset,
                },
            )
        } else {
            Ok(
                LoadModel {
                    indices: st.indices,
                    vertices: st.vertices,
                    meshes: st.meshes.push(st.object),
                    vertex: st.vertex,
                    object: MeshEntry {
                        name,
                        index_count: 0,
                        index_offset: st.object.index_offset + st.object.index_count,
                    },
                    file_offset: st.file_offset,
                },
            )
        }
    } else if is_record(line, 118) {
        let v = (
            field_or(fields, 1, st.vertex.0),
            field_or(fields, 2, st.vertex.1),
            field_or(fields, 3, st.vertex.2),
        );
        Ok(
            LoadModel {
                indices: st.indices,
                vertices: st.vertices.push(v),
                meshes: st.meshes,
                vertex: v,
                object: st.object,
                file_offset: st.file_offset,
            },
        )
    } else if is_record(line, 102) {
        if st.object.index_offset + st.object.index_count + 3 > usize::MAX {
            Err(LoadError::TooManyIndices)
        } else {
            match face_indices(fields, st.file_offset, min_int(fields.len() as int, 4)) {
                Err(e) => Err(e),
                Ok(ix) => Ok(
                    LoadModel {
                        indices: st.indices + ix,
                        vertices: st.vertices,
                        meshes: st.meshes,
                        vertex: st.vertex,
                        object: MeshEntry {
                            name: st.object.name,
                            index_count: st.object.index_count + ix.len(),
                            index_offset: st.object.index_offset,
                        },
                        file_offset: st.file_offset,
                    },
                ),
            }
        }
    } else {
        Ok(st)
    }
}

pub open spec fn load_lines(st: LoadModel, lines: Seq<Seq<u8>>) -> Result<LoadModel, LoadError>
    decreases lines.len(),
{
    if lines.len() == 0 {
        Ok(st)
    } else {
        match load_lines(st, lines.drop_last()) {
            Ok(s) => apply_line(s, lines.last()),
            Err(e) => Err(e),
        }
    }
}

/// The state at the start of a file: its face indices are rebased by the
/// number of vertices loaded so far.
pub open spec fn start_file(st: LoadModel) -> LoadModel {
    LoadModel {
        indices: st.indices,
        vertices: st.vertices,
        meshes: st.meshes,
        vertex: st.vertex,
        object: st.object,
        file_offset: st.vertices.len() as int,
    }
}

pub open spec fn load_files(files: Seq<Seq<Seq<u8>>>) -> Result<LoadModel, LoadError>
    decreases files.len(),
{
    if files.len() == 0 {
        Ok(initial_model())
    } else {
        match load_files(files.drop_last()) {
            Ok(s) => load_lines(start_file(s), files.last()),
            Err(e) => Err(e),
        }
    }
}

pub open spec fn lines_of(file: Seq<Vec<u8>>) -> Seq<Seq<u8>> {
    file.map_values(|l: Vec<u8>| l@)
}

pub open spec fn files_of(files: Seq<Vec<Vec<u8>>>) -> Seq<Seq<Seq<u8>>> {
    files.map_values(|f: Vec<Vec<u8>>| lines_of(f@))
}

impl ObjectPool {
    /// The table holds what the loader reached, with the open mesh closed.
    pub open spec fn holds(&self, m: LoadModel) -> bool {
        &&& self.indices@ == m.indices
        &&& self.vertices@.map_values(|v: VertexFields| v@) == m.vertices
        &&& self.pool@.map_values(|o: ObjectData| o@) == m.meshes.push(m.object)
    }
}

fn copy_bytes(v: &Vec<u8>) -> (r: Vec<u8>)
    ensures
        r@ == v@,
{
    let mut r: Vec<u8> = Vec::new();
    let mut i: usize = 0;
    while i < v.len()
        invariant
            i <= v@.len(),
            r@ == v@.take(i as int),
        decreases v@.len() - i,
    {
        r.push(v[i]);
        i = i + 1;
        assert(r@ =~= v@.take(i as int));
    }
    assert(v@.take(v@.len() as int) =~= v@);
    r
}

struct Loader {
    indices: Vec<u16>,
    vertices: Vec<VertexFields>,
    meshes: Vec<ObjectData>,
    vertex: VertexFields,
    object: ObjectData,
    file_offset: usize,
}

impl Loader {
    spec fn model(&self) -> LoadModel {
        LoadModel {
            indices: self.indices@,
            vertices: self.vertices@.map_values(|v: VertexFields| v@),
            meshes: self.meshes@.map_values(|o: ObjectData| o@),
            vertex: self.vertex@,
            object: self.object@,
            file_offset: self.file_offset as int,
        }
    }

    fn face(&mut self, fields: &Vec<Vec<u8>>) -> (r: Result<(), LoadError>)
        requires
            old(self).object.index_offset + old(self).object.index_count + 3 <= usize::MAX,
        ensures
            match face_indices(views_of(fields@), old(self).file_offset as int, min_int(fields@.len() as int, 4)) {
                Ok(ix) => r is Ok && final(self).indices@ == old(self).indices@ + ix,
                Err(e) => r == Err::<(), LoadError>(e),
            },
            final(self).vertices == old(self).vertices,
            final(self).meshes == old(self).meshes,
            final(self).vertex == old(self).vertex,
            final(self).object == old(self).object,
            final(self).file_offset == old(self).file_offset,
    {
        let ghost fv = views_of(fields@);
        let ghost start = self.indices@;
        let end: usize = if fields.len() < 4 {
            fields.len()
        } else {
            4
        };
        let mut k: usize = 1;
        assert(self.indices@.subrange(start.len() as int, self.indices@.len() as int) =~= Seq::empty());
        assert(self.indices@.subrange(0, start.len() as int) =~= start);
        while k < end
            invariant
                1 <= k,
                k <= end || k == 1,
                end == min_int(fields@.len() as int, 4),
                fv == views_of(fields@),
                face_indices(fv, self.file_offset as int, k as int) == Ok::<Seq<u16>, LoadError>(
                    self.indices@.subrange(start.len() as int, self.indices@.len() as int),
                ),
                self.indices@.len() >= start.len(),
                self.indices@.subrange(0, start.len() as int) == start,
                self.vertices == old(self).vertices,
                self.meshes == old(self).meshes,
                self.vertex == old(self).vertex,
                self.object == old(self).object,
                self.file_offset == old(self).file_offset,
            decreases end - k,
        {
            let ghost before = self.indices@;
            let field = fields[k].as_slice();
            let parsed = parse_u16(field);
            assert(fv[k as int] == fields@[k as int]@);
            if parsed.is_none() || parsed == Some(0u16) || self.file_offset > 65535 || (
            parsed.unwrap() - 1) as usize > 65535 - self.file_offset {
                proof {
                    lemma_face_err_stays(fv, self.file_offset as int, k + 1, end as int);
                }
            }
            match parsed {
                None => {
                    return Err(LoadError::BadIndex);
                },
                Some(n) => {
                    if n == 0 {
                        return Err(LoadError::BadIndex);
                    }
                    if self.file_offset > 65535 || (n - 1) as usize > 65535 - self.file_offset {
                        return Err(LoadError::IndexOverflow);
                    }
                    let index = (self.file_offset + (n - 1) as usize) as u16;
                    self.indices.push(index);
                    assert(self.indices@.subrange(start.len() as int, self.indices@.len() as int)
                        =~= before.subrange(start.len() as int, before.len() as int).push(index));
                    assert(self.indices@.subrange(0, start.len() as int) =~= before.subrange(0, start.len() as int));
                },
            }
            k = k + 1;
        }
        assert(face_indices(fv, self.file_offset as int, end as int) == face_indices(
            fv,
            self.file_offset as int,
            k as int,
        ));
        assert(self.indices@ =~= start + self.indices@.subrange(start.len() as int, self.indices@.len() as int));
        Ok(())
    }

    fn apply(&mut self, line: &Vec<u8>) -> (r: Result<(), LoadError>)
        requires
            old(self).object.index_offset + old(self).object.index_count <= usize::MAX,
        ensures
            final(self).object.index_offset + final(self).object.index_count <= usize::MAX,
            match apply_line(old(self).model(), line@) {
                Ok(m) => r is Ok && final(self).model() == m,
                Err(e) => r == Err::<(), LoadError>(e),
            },
    {
        let ghost m0 = self.model();
        let fields = split_line(line.as_slice());
        proof {
            lemma_split_nonempty(line@);
        }
        let ghost fv = split_fields(line@);
        assert(forall|j: int| 0 <= j < fields@.len() ==> #[trigger] fields@[j]@ == fv[j]) by {
            assert forall|j: int| 0 <= j < fields@.len() implies #[trigger] fields@[j]@ == fv[j] by {
                assert(views_of(fields@)[j] == fields@[j]@);
            }
        }
        if line.len() >= 2 && line[0] == 111 && line[1] == 32 {
            let name = copy_bytes(&fields[fields.len() - 1]);
            if self.object.name.len() == 0 {
                self.object.name = name;
            } else {
                let mut done = ObjectData {
                    name,
                    index_count: 0,
                    index_offset: self.object.index_offset + self.object.index_count,
                };
                std::mem::swap(&mut done, &mut self.object);
                let ghost before = self.meshes@;
                self.meshes.push(done);
                assert(self.meshes@.map_values(|o: ObjectData| o@) =~= before.map_values(
                    |o: ObjectData| o@,
                ).push(done@));
            }
            assert(self.model().object =~= apply_line(m0, line@).unwrap().object);
            assert(self.model().meshes =~= apply_line(m0, line@).unwrap().meshes);
        } else if line.len() >= 2 && line[0] == 118 && line[1] == 32 {
            let x = if fields.len() > 1 {
                copy_bytes(&fields[1])
            } else {
                copy_bytes(&self.vertex.x)
            };
            let y = if fields.len() > 2 {
                copy_bytes(&fields[2])
            } else {
                copy_bytes(&self.vertex.y)
            };
            let z = if fields.len() > 3 {
                copy_bytes(&fields[3])
            } else {
                copy_bytes(&self.vertex.z)
            };
            let stored = VertexFields { x: copy_bytes(&x), y: copy_bytes(&y), z: copy_bytes(&z) };
            self.vertex = VertexFields { x, y, z };
            let ghost before = self.vertices@;
            self.vertices.push(stored);
            assert(self.vertices@.map_values(|v: VertexFields| v@) =~= before.map_values(
                |v: VertexFields| v@,
            ).push(stored@));
            assert(self.model().vertices =~= apply_line(m0, line@).unwrap().vertices);
        } else if line.len() >= 2 && line[0] == 102 && line[1] == 32 {
            if self.object.index_offset > usize::MAX - 3 || self.object.index_count > usize::MAX - 3
                - self.object.index_offset {
                return Err(LoadError::TooManyIndices);
            }
            assert(views_of(fields@) == fv);
            let before = self.indices.len();
            match self.face(&fields) {
                Err(e) => {
                    return Err(e);
                },
                Ok(()) => {},
            }
            proof {
                lemma_face_len(fv, self.file_offset as int, min_int(fields@.len() as int, 4));
            }
            let added = self.indices.len() - before;
            self.object.index_count = self.object.index_count + added;
            assert(self.model().indices =~= apply_line(m0, line@).unwrap().indices);
            assert(self.model().object =~= apply_line(m0, line@).unwrap().object);
        }
        Ok(())
    }
}

proof fn lemma_lines_err_stays(st: LoadModel, lines: Seq<Seq<u8>>, k: int)
    requires
        0 <= k <= lines.len(),
        load_lines(st, lines.take(k)) is Err,
    ensures
        load_lines(st, lines) == load_lines(st, lines.take(k)),
    decreases lines.len() - k,
{
    if k < lines.len() {
        assert(lines.take(k + 1).drop_last() =~= lines.take(k));
        lemma_lines_err_stays(st, lines, k + 1);
    } else {
        assert(lines.take(k) =~= lines);
    }
}

proof fn lemma_files_err_stays(files: Seq<Seq<Seq<u8>>>, k: int)
    requires
        0 <= k <= files.len(),
        load_files(files.take(k)) is Err,
    ensures
        load_files(files) == load_files(files.take(k)),
    decreases files.len() - k,
{
    if k < files.len() {
        assert(files.take(k + 1).drop_last() =~= files.take(k));
        lemma_files_err_stays(files, k + 1);
    } else {
        assert(files.take(k) =~= files);
    }
}

/// Loads the mesh table from mesh files given as lines (without line
/// terminators). The vertices of all files form one list; each file's face
/// indices are rebased by the number of vertices of the files before it, so
/// that the global index buffer addresses that list. Mesh ranges run on
/// across files, and the mesh still open at the end is closed.
pub fn load_obj_files(files: &Vec<Vec<Vec<u8>>>) -> (r: Result<ObjectPool, LoadError>)
    ensures
        match load_files(files_of(files@)) {
            Ok(m) => r matches Ok(p) && p.holds(m),
            Err(e) => r matches Err(x) && x == e,
        },
{
    let mut ld = Loader {
        indices: Vec::new(),
        vertices: Vec::new(),
        meshes: Vec::new(),
        vertex: VertexFields { x: vec![48u8], y: vec![48u8], z: vec![48u8] },
        object: ObjectData { name: Vec::new(), index_count: 0, index_offset: 0 },
        file_offset: 0,
    };
    let ghost all = files_of(files@);
    assert(ld.model().vertex =~= initial_model().vertex);
    assert(ld.model().indices =~= initial_model().indices);
    assert(ld.model().vertices =~= initial_model().vertices);
    assert(ld.model().meshes =~= initial_model().meshes);
    assert(ld.model().object.name =~= initial_model().object.name);
    assert(all.take(0) =~= Seq::<Seq<Seq<u8>>>::empty());
    let mut i: usize = 0;
    while i < files.len()
        invariant
            i <= files@.len(),
            all == files_of(files@),
            ld.object.index_offset + ld.object.index_count <= usize::MAX,
            load_files(all.take(i as int)) == Ok::<LoadModel, LoadError>(ld.model()),
        decreases files@.len() - i,
    {
        let file = &files[i];
        let ghost lines = lines_of(file@);
        assert(all[i as int] == lines);
        ld.file_offset = ld.vertices.len();
        let ghost st = ld.model();
        assert(st == start_file(load_files(all.take(i as int)).unwrap()));
        assert(lines.take(0) =~= Seq::<Seq<u8>>::empty());
        let mut j: usize = 0;
        while j < file.len()
            invariant
                j <= file@.len(),
                i < files@.len(),
                *file == files@[i as int],
                all == files_of(files@),
                all[i as int] == lines,
                load_files(all.take(i as int)) is Ok,
                st == start_file(load_files(all.take(i as int)).unwrap()),
                lines == lines_of(file@),
                ld.object.index_offset + ld.object.index_count <= usize::MAX,
                load_lines(st, lines.take(j as int)) == Ok::<LoadModel, LoadError>(ld.model()),
            decreases file@.len() - j,
        {
            assert(lines.take(j as int + 1).drop_last() =~= lines.take(j as int));
            assert(lines[j as int] == file@[j as int]@);
            let step = ld.apply(&file[j]);
            if step.is_err() {
                proof {
                    lemma_lines_err_stays(st, lines, j + 1);
                    assert(all.take(i as int + 1).drop_last() =~= all.take(i as int));
                    lemma_files_err_stays(all, i + 1);
                }
                return match step {
                    Err(e) => Err(e),
                    Ok(()) => Err(LoadError::BadIndex),
                };
            }
            j = j + 1;
        }
        assert(lines.take(j as int) =~= lines);
        assert(all.take(i as int + 1).drop_last() =~= all.take(i as int));
        i = i + 1;
    }
    assert(all.take(i as int) =~= all);
    let ghost m = ld.model();
    let Loader { indices, vertices, mut meshes, vertex: _, object, file_offset: _ } = ld;
    let ghost before = meshes@;
    meshes.push(object);
    assert(meshes@.map_values(|o: ObjectData| o@) =~= before.map_values(|o: ObjectData| o@).push(
        object@,
    ));
    Ok(ObjectPool { indices, vertices, pool: meshes })
}

/// The indices that the face records of a file add, rebased by `offset`.
pub open spec fn face_stream(lines: Seq<Seq<u8>>, offset: int) -> Seq<u16>
    decreases lines.len(),
{
    if lines.len() == 0 {
        Seq::empty()
    } else {
        let l = lines.last();
        let fields = split_fields(l);
        let more = if is_record(l, 111) || is_record(l, 118) || !is_record(l, 102) {
            Seq::empty()
        } else {
            face_indices(fields, offset, min_int(fields.len() as int, 4)).unwrap()
        };
        face_stream(lines.drop_last(), offset) + more
    }
}

/// The number of vertex records of a file.
pub open spec fn vertex_lines(lines: Seq<Seq<u8>>) -> nat
    decreases lines.len(),
{
    if lines.len() == 0 {
        0
    } else {
        vertex_lines(lines.drop_last()) + if is_record(lines.last(), 118) {
            1nat
        } else {
            0nat
        }
    }
}

proof fn lemma_load_lines(st: LoadModel, lines: Seq<Seq<u8>>)
    requires
        load_lines(st, lines) is Ok,
    ensures
        load_lines(st, lines).unwrap().indices == st.indices + face_stream(lines, st.file_offset),
        load_lines(st, lines).unwrap().vertices.len() == st.vertices.len() + vertex_lines(lines),
        load_lines(st, lines).unwrap().file_offset == st.file_offset,
    decreases lines.len(),
{
    if lines.len() == 0 {
        assert(st.indices + face_stream(lines, st.file_offset) =~= st.indices);
    } else {
        lemma_load_lines(st, lines.drop_last());
        let prev = load_lines(st, lines.drop_last()).unwrap();
        let l = lines.last();
        let fields = split_fields(l);
        if !is_record(l, 111) && !is_record(l, 118) && is_record(l, 102) {
            assert(prev.indices + face_indices(fields, prev.file_offset, min_int(fields.len() as int, 4)).unwrap()
                =~= st.indices + face_stream(lines, st.file_offset));
        } else {
            assert(prev.indices =~= st.indices + face_stream(lines, st.file_offset));
        }
    }
}

/// Mesh offset rebasing: loading two files one after the other gives the
/// first file's face indices unchanged (one-based numbers made zero-based),
/// followed by the second file's shifted by exactly the first file's number
/// of vertices.
pub proof fn lemma_rebased_by_vertex_count(first: Seq<Seq<u8>>, second: Seq<Seq<u8>>)
    requires
        load_files(seq![first, second]) is Ok,
    ensures
        load_files(seq![first, second]).unwrap().indices == face_stream(first, 0) + face_stream(
            second,
            vertex_lines(first) as int,
        ),
{
    let files = seq![first, second];
    assert(files.drop_last() =~= seq![first]);
    assert(seq![first].drop_last() =~= Seq::<Seq<Seq<u8>>>::empty());
    let m0 = initial_model();
    assert(seq![first].last() == first);
    assert(files.last() == second);
    assert(load_files(Seq::<Seq<Seq<u8>>>::empty()) == Ok::<LoadModel, LoadError>(m0));
    assert(load_files(seq![first]) == load_lines(start_file(m0), first));
    assert(load_lines(start_file(m0), first) is Ok);
    lemma_load_lines(start_file(m0), first);
    let m1 = load_lines(start_file(m0), first).unwrap();
    lemma_load_lines(start_file(m1), second);
    assert(start_file(m0).indices + face_stream(first, 0) =~= face_stream(first, 0));
}

/// Every face field of the line (the first three after the record letter)
/// is a one-based vertex number from 1 to `limit`.
pub open spec fn face_fields_valid(line: Seq<u8>, limit: int) -> bool {
    let fields = split_fields(line);
    forall|j: int|
        1 <= j < min_int(fields.len() as int, 4) ==> (#[trigger] parse_u16_spec(fields[j])) is Some
            && 1 <= parse_u16_spec(fields[j]).unwrap() <= limit
}

/// Every face record of a file names vertices 1 to `limit` only.
pub open spec fn faces_valid(lines: Seq<Seq<u8>>, limit: int) -> bool {
    forall|i: int| 0 <= i < lines.len() && is_record(#[trigger] lines[i], 102) ==> face_fields_valid(lines[i], limit)
}

proof fn lemma_face_ok(fields: Seq<Seq<u8>>, offset: int, limit: int, k: int)
    requires
        0 <= offset,
        offset + limit <= 65536,
        k <= min_int(fields.len() as int, 4),
        forall|j: int|
            1 <= j < min_int(fields.len() as int, 4) ==> (#[trigger] parse_u16_spec(fields[j])) is Some
                && 1 <= parse_u16_spec(fields[j]).unwrap() <= limit,
    ensures
        face_indices(fields, offset, k) is Ok,
    decreases k,
{
    if k > 1 {
        lemma_face_ok(fields, offset, limit, k - 1);
        assert(parse_u16_spec(fields[k - 1]) is Some);
    }
}

proof fn lemma_lines_ok(st: LoadModel, lines: Seq<Seq<u8>>, limit: int)
    requires
        0 <= st.file_offset,
        st.file_offset + limit <= 65536,
        faces_valid(lines, limit),
        st.object.index_offset + st.object.index_count + 3 * lines.len() <= usize::MAX,
    ensures
        load_lines(st, lines) is Ok,
        load_lines(st, lines).unwrap().file_offset == st.file_offset,
        load_lines(st, lines).unwrap().object.index_offset + load_lines(st, lines).unwrap().object.index_count
            <= st.object.index_offset + st.object.index_count + 3 * lines.len(),
    decreases lines.len(),
{
    if lines.len() > 0 {
        let init = lines.drop_last();
        assert(faces_valid(init, limit)) by {
            assert forall|i: int| 0 <= i < init.len() && is_record(#[trigger] init[i], 102) implies face_fields_valid(
                init[i],
                limit,
            ) by {
                assert(init[i] == lines[i]);
            }
        }
        lemma_lines_ok(st, init, limit);
        let prev = load_lines(st, init).unwrap();
        let l = lines.last();
        let fields = split_fields(l);
        if !is_record(l, 111) && !is_record(l, 118) && is_record(l, 102) {
            assert(lines[lines.len() - 1] == l);
            assert(face_fields_valid(l, limit));
            lemma_face_ok(fields, prev.file_offset, limit, min_int(fields.len() as int, 4));
            lemma_face_len(fields, prev.file_offset, min_int(fields.len() as int, 4));
        }
    }
}

/// Mesh offset rebasing, from the files alone: when the first file's face
/// records hold one-based vertex numbers, the second file's name only its
/// own vertices (one-based), and the two hold at most 65536 vertices
/// together, loading them one after the other
/// succeeds, and the index buffer is the first file's face indices made
/// zero-based followed by the second file's shifted by exactly the first
/// file's number of vertices.
pub proof fn lemma_two_files_rebased(first: Seq<Seq<u8>>, second: Seq<Seq<u8>>)
    requires
        faces_valid(first, 65536),
        faces_valid(second, vertex_lines(second) as int),
        vertex_lines(first) + vertex_lines(second) <= 65536,
        3 * (first.len() + second.len()) <= usize::MAX,
    ensures
        load_files(seq![first, second]) is Ok,
        load_files(seq![first, second]).unwrap().indices == face_stream(first, 0) + face_stream(
            second,
            vertex_lines(first) as int,
        ),
{
    let files = seq![first, second];
    assert(files.drop_last() =~= seq![first]);
    assert(seq![first].drop_last() =~= Seq::<Seq<Seq<u8>>>::empty());
    assert(seq![first].last() == first);
    assert(files.last() == second);
    let m0 = initial_model();
    assert(load_files(Seq::<Seq<Seq<u8>>>::empty()) == Ok::<LoadModel, LoadError>(m0));
    assert(load_files(seq![first]) == load_lines(start_file(m0), first));
    lemma_lines_ok(start_file(m0), first, 65536);
    lemma_load_lines(start_file(m0), first);
    let m1 = load_lines(start_file(m0), first).unwrap();
    lemma_lines_ok(start_file(m1), second, vertex_lines(second) as int);
    lemma_rebased_by_vertex_count(first, second);
}

} // verus!
