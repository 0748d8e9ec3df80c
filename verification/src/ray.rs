use crate::error::{Error, Result};
use crate::matrix::data_type;
use vstd::prelude::*;

pub mod acceleration_structure_status;
pub mod acceleration_structure_usage;
pub mod cull_mode;
pub mod intersection_data_type;
pub mod intersection_type;
pub mod polygon_type;
pub mod ray_data_type;
mod raw_values;
pub mod winding;

pub use self::raw_values::{
    AccelerationStructureStatus, AccelerationStructureUsage, BoundingBoxIntersectionTestType, PolygonType,
    RayMaskOperator, RayMaskOptions, TemporalWeighting, TransformType, TriangleIntersectionTestType,
};

verus! {

/// Bytes of one `packed_float3` vertex.
pub const VERTEX_SIZE: usize = 12;
/// The vertex stride MPS uses when the stride is left at 0.
pub const DEFAULT_VERTEX_STRIDE: usize = 16;

/// A buffer length reported as `NSInteger`: negative when there is no buffer.
pub open spec fn native_length_spec(length: isize) -> Option<usize> {
    if length >= 0 {
        Some(length as usize)
    } else {
        None
    }
}

/// The length of a buffer that MPS reports as an `NSInteger`, `None` when there is no buffer.
pub fn native_length(length: isize) -> (r: Option<usize>)
    ensures
        r == native_length_spec(length),
{
    if length >= 0 {
        Some(length as usize)
    } else {
        None
    }
}

/// What a rebuild of a polygon acceleration structure was made from.
#[derive(Debug, Clone, Copy, PartialEq, Eq)]
pub struct Geometry {
    pub polygon_type: usize,
    pub vertex_stride: usize,
    pub index_type: Option<u32>,
    pub polygon_count: usize,
    pub usage: usize,
}

/// The settings of an `MPSPolygonAccelerationStructure` that a rebuild reads.
#[derive(Debug, Clone, Copy)]
pub struct GeometrySettings {
    pub polygon_type: usize,
    pub vertex_stride: usize,
    pub vertex_buffer_offset: usize,
    /// Length of the vertex buffer, negative when none is set.
    pub vertex_buffer_length: isize,
    pub index_type: u32,
    pub index_buffer_offset: usize,
    /// Length of the index buffer, negative when none is set.
    pub index_buffer_length: isize,
    pub polygon_count: usize,
    pub usage: usize,
}

/// Corners per polygon of an `MPSPolygonType`.
pub open spec fn vertices_per_polygon(polygon_type: usize) -> Option<usize> {
    if polygon_type == polygon_type::TRIANGLE {
        Some(3)
    } else if polygon_type == polygon_type::QUADRILATERAL {
        Some(4)
    } else {
        None
    }
}

/// Bytes per index of an index data type.
pub open spec fn index_size(index_type: u32) -> Option<usize> {
    if index_type == data_type::UINT16 {
        Some(2)
    } else if index_type == data_type::UINT32 {
        Some(4)
    } else {
        None
    }
}

impl GeometrySettings {
    /// The vertex stride MPS uses.
    pub open spec fn effective_vertex_stride(self) -> usize {
        if self.vertex_stride == 0 {
            DEFAULT_VERTEX_STRIDE
        } else {
            self.vertex_stride
        }
    }

    /// What the index-buffer check returns for `corners` indices.
    pub open spec fn index_spec(self, corners: int) -> Result<Option<u32>> {
        match native_length_spec(self.index_buffer_length) {
            None => Ok(None),
            Some(length) => match index_size(self.index_type) {
                None => Err(Error::InvalidArgument("index_type must be UINT16 or UINT32")),
                Some(size) => {
                    let required = corners * size + self.index_buffer_offset;
                    if self.index_buffer_offset % size != 0 {
                        Err(Error::Misaligned {
                            field: "index_buffer_offset",
                            value: self.index_buffer_offset,
                            alignment: size,
                        })
                    } else if corners * size > usize::MAX || required > usize::MAX {
                        Err(Error::Overflow)
                    } else if required > length {
                        Err(Error::BufferTooSmall { required: required as usize, length })
                    } else {
                        Ok(Some(self.index_type))
                    }
                },
            },
        }
    }

    /// What `validated_geometry` returns: the first rule the settings break,
    /// or the geometry a rebuild would use.
    pub open spec fn geometry_spec(self) -> Result<Geometry> {
        let stride = self.effective_vertex_stride();
        match vertices_per_polygon(self.polygon_type) {
            None => Err(Error::InvalidArgument("polygon_type is not an MPSPolygonType")),
            Some(per_polygon) => {
                let corners = self.polygon_count * per_polygon;
                if stride % 4 != 0 {
                    Err(Error::Misaligned { field: "vertex_stride", value: stride, alignment: 4 })
                } else if stride < VERTEX_SIZE {
                    Err(Error::DimensionMismatch { field: "vertex_stride", expected: VERTEX_SIZE, actual: stride })
                } else if self.vertex_buffer_offset % 4 != 0 {
                    Err(Error::Misaligned {
                        field: "vertex_buffer_offset",
                        value: self.vertex_buffer_offset,
                        alignment: 4,
                    })
                } else if native_length_spec(self.vertex_buffer_length) is None {
                    Err(Error::InvalidArgument("a vertex buffer is required"))
                } else if corners > usize::MAX {
                    Err(Error::Overflow)
                } else {
                    match self.index_spec(corners) {
                        Err(error) => Err(error),
                        Ok(index_type) => {
                            let vertices: int = if index_type is Some {
                                if self.polygon_count > 0 { 1 } else { 0 }
                            } else {
                                corners
                            };
                            let required = (vertices - 1) * stride + VERTEX_SIZE + self.vertex_buffer_offset;
                            let length = native_length_spec(self.vertex_buffer_length).unwrap();
                            if vertices > 0 && required > usize::MAX {
                                Err(Error::Overflow)
                            } else if vertices > 0 && required > length {
                                Err(Error::BufferTooSmall { required: required as usize, length })
                            } else {
                                Ok(Geometry {
                                    polygon_type: self.polygon_type,
                                    vertex_stride: stride,
                                    index_type,
                                    polygon_count: self.polygon_count,
                                    usage: self.usage,
                                })
                            }
                        },
                    }
                }
            },
        }
    }

    fn validated_index_type(&self, corners: usize) -> (r: Result<Option<u32>>)
        ensures
            r == self.index_spec(corners as int),
    {
        match native_length(self.index_buffer_length) {
            None => Ok(None),
            Some(index_length) => {
                let index_type = self.index_type;
                let index_size: usize = if index_type == data_type::UINT16 {
                    2
                } else if index_type == data_type::UINT32 {
                    4
                } else {
                    return Err(Error::InvalidArgument("index_type must be UINT16 or UINT32"));
                };
                let index_offset = self.index_buffer_offset;
                if index_offset % index_size != 0 {
                    return Err(Error::Misaligned {
                        field: "index_buffer_offset",
                        value: index_offset,
                        alignment: index_size,
                    });
                }
                let bytes = match corners.checked_mul(index_size) {
                    Some(bytes) => bytes,
                    None => return Err(Error::Overflow),
                };
                let required = match bytes.checked_add(index_offset) {
                    Some(required) => required,
                    None => return Err(Error::Overflow),
                };
                if required > index_length {
                    return Err(Error::BufferTooSmall { required, length: index_length });
                }
                Ok(Some(index_type))
            },
        }
    }

    /// Checks the settings before a rebuild: a known polygon type, a vertex
    /// stride and offset that are 4-byte multiples and hold a vertex, a vertex
    /// buffer that holds every vertex read, and an index buffer (if any) of
    /// 16- or 32-bit indices that holds every corner's index.
    pub fn validated_geometry(&self) -> (r: Result<Geometry>)
        ensures
            r == self.geometry_spec(),
    {
        let polygon_type = self.polygon_type;
        let vertices_per_polygon: usize = if polygon_type == polygon_type::TRIANGLE {
            3
        } else if polygon_type == polygon_type::QUADRILATERAL {
            4
        } else {
            return Err(Error::InvalidArgument("polygon_type is not an MPSPolygonType"));
        };
        let vertex_stride = if self.vertex_stride == 0 { DEFAULT_VERTEX_STRIDE } else { self.vertex_stride };
        if vertex_stride % 4 != 0 {
            return Err(Error::Misaligned { field: "vertex_stride", value: vertex_stride, alignment: 4 });
        }
        if vertex_stride < VERTEX_SIZE {
            return Err(Error::DimensionMismatch {
                field: "vertex_stride",
                expected: VERTEX_SIZE,
                actual: vertex_stride,
            });
        }
        let vertex_offset = self.vertex_buffer_offset;
        if vertex_offset % 4 != 0 {
            return Err(Error::Misaligned { field: "vertex_buffer_offset", value: vertex_offset, alignment: 4 });
        }
        let vertex_length = match native_length(self.vertex_buffer_length) {
            Some(length) => length,
            None => return Err(Error::InvalidArgument("a vertex buffer is required")),
        };
        let polygon_count = self.polygon_count;
        let corners = match polygon_count.checked_mul(vertices_per_polygon) {
            Some(corners) => corners,
            None => return Err(Error::Overflow),
        };
        let index_type = match self.validated_index_type(corners) {
            Ok(index_type) => index_type,
            Err(error) => return Err(error),
        };
        let vertices: usize = if index_type.is_some() {
            if polygon_count > 0 { 1 } else { 0 }
        } else {
            corners
        };
        if vertices > 0 {
            proof {
                vstd::arithmetic::mul::lemma_mul_nonnegative(vertices - 1, vertex_stride as int);
            }
            let span = match (vertices - 1).checked_mul(vertex_stride) {
                Some(span) => span,
                None => return Err(Error::Overflow),
            };
            let end = match span.checked_add(VERTEX_SIZE) {
                Some(end) => end,
                None => return Err(Error::Overflow),
            };
            let required = match end.checked_add(vertex_offset) {
                Some(required) => required,
                None => return Err(Error::Overflow),
            };
            if required > vertex_length {
                return Err(Error::BufferTooSmall { required, length: vertex_length });
            }
        }
        Ok(Geometry { polygon_type, vertex_stride, index_type, polygon_count, usage: self.usage })
    }
}

/// What an acceleration structure was last rebuilt from, if it is rebuilt.
///
/// A rebuild first validates the settings and forgets the previous geometry;
/// only a rebuild that MPS reports as built records the new one. Encodes
/// need the recorded geometry, and settings that still validate to it.
#[derive(Debug)]
pub struct BuildState {
    built: Option<Geometry>,
}

/// What `ensure_built` returns.
pub open spec fn ensure_built_spec(built: Option<Geometry>, status: usize, settings: GeometrySettings) -> Result<Geometry> {
    if built is None || status != acceleration_structure_status::BUILT {
        Err(Error::InvalidArgument("the acceleration structure must be rebuilt first"))
    } else {
        match settings.geometry_spec() {
            Err(error) => Err(error),
            Ok(current) => if current == built.unwrap() {
                Ok(current)
            } else {
                Err(Error::InvalidArgument(
                    "polygon type, count, stride, index type or usage changed since the last rebuild",
                ))
            },
        }
    }
}

/// Whether the `REFIT` usage bit is set.
pub open spec fn refit_allowed(usage: usize) -> bool {
    usage % 2 == 1
}

/// What `check_refit` returns.
pub open spec fn refit_spec(built: Option<Geometry>, status: usize, settings: GeometrySettings) -> Result<()> {
    match ensure_built_spec(built, status, settings) {
        Err(error) => Err(error),
        Ok(geometry) => if refit_allowed(geometry.usage) {
            Ok(())
        } else {
            Err(Error::InvalidArgument("refitting needs a structure rebuilt with acceleration_structure_usage::REFIT"))
        },
    }
}

impl View for BuildState {
    type V = Option<Geometry>;

    closed spec fn view(&self) -> Option<Geometry> {
        self.built
    }
}

impl BuildState {
    /// A structure that has never been rebuilt.
    pub fn new() -> (r: Self)
        ensures
            r@ is None,
    {
        BuildState { built: None }
    }

    /// The geometry of the last successful rebuild.
    pub fn built(&self) -> (r: Option<Geometry>)
        ensures
            r == self@,
    {
        self.built
    }

    /// Validates the settings before a rebuild and forgets the geometry of
    /// the previous one; on an error nothing changes.
    pub fn begin_rebuild(&mut self, settings: &GeometrySettings) -> (r: Result<Geometry>)
        ensures
            r == settings.geometry_spec(),
            final(self)@ == (if r is Ok { None } else { old(self)@ }),
    {
        let geometry = match settings.validated_geometry() {
            Ok(geometry) => geometry,
            Err(error) => return Err(error),
        };
        self.built = None;
        Ok(geometry)
    }

    /// Records `geometry` when MPS reports the rebuild as built.
    pub fn finish_rebuild(&mut self, geometry: Geometry, status: usize) -> (r: Result<()>)
        ensures
            status == acceleration_structure_status::BUILT ==> r is Ok && final(self)@ == Some(geometry),
            status != acceleration_structure_status::BUILT ==> r == Err::<(), Error>(
                Error::Rejected("MPSAccelerationStructure rebuild"),
            ) && final(self)@ == old(self)@,
    {
        if status == acceleration_structure_status::BUILT {
            self.built = Some(geometry);
            Ok(())
        } else {
            Err(Error::Rejected("MPSAccelerationStructure rebuild"))
        }
    }

    /// The recorded geometry, if MPS reports the structure as built and the
    /// current settings still validate to exactly that geometry.
    pub fn ensure_built(&self, status: usize, settings: &GeometrySettings) -> (r: Result<Geometry>)
        ensures
            r == ensure_built_spec(self@, status, *settings),
    {
        let built = match self.built {
            Some(built) => {
                if status == acceleration_structure_status::BUILT {
                    built
                } else {
                    return Err(Error::InvalidArgument("the acceleration structure must be rebuilt first"));
                }
            },
            None => return Err(Error::InvalidArgument("the acceleration structure must be rebuilt first")),
        };
        let current = match settings.validated_geometry() {
            Ok(current) => current,
            Err(error) => return Err(error),
        };
        if current.polygon_type == built.polygon_type && current.vertex_stride == built.vertex_stride
            && current.polygon_count == built.polygon_count && current.usage == built.usage
            && match (current.index_type, built.index_type) {
                (Some(a), Some(b)) => a == b,
                (None, None) => true,
                _ => false,
            } {
            Ok(current)
        } else {
            Err(Error::InvalidArgument(
                "polygon type, count, stride, index type or usage changed since the last rebuild",
            ))
        }
    }

    /// Checks that a refit may be encoded: the structure is built from the
    /// current settings with the `REFIT` usage.
    pub fn check_refit(&self, status: usize, settings: &GeometrySettings) -> (r: Result<()>)
        ensures
            r == refit_spec(self@, status, *settings),
    {
        let geometry = match self.ensure_built(status, settings) {
            Ok(geometry) => geometry,
            Err(error) => return Err(error),
        };
        if geometry.usage % 2 == 1 {
            Ok(())
        } else {
            Err(Error::InvalidArgument(
                "refitting needs a structure rebuilt with acceleration_structure_usage::REFIT",
            ))
        }
    }
}

/// A rebuild that MPS completes makes the structure usable with the same
/// settings: encodes then see exactly the geometry the rebuild validated.
pub proof fn lemma_rebuild_then_ensure_built(before: Option<Geometry>, settings: GeometrySettings)
    requires
        settings.geometry_spec() is Ok,
    ensures
        ensure_built_spec(Some(settings.geometry_spec().unwrap()), acceleration_structure_status::BUILT, settings)
            == settings.geometry_spec(),
{
}

/// An encode is only accepted on a structure whose current settings
/// validate, and validate to the geometry of its last completed rebuild.
pub proof fn lemma_ensure_built_means_current(built: Option<Geometry>, status: usize, settings: GeometrySettings)
    requires
        ensure_built_spec(built, status, settings) is Ok,
    ensures
        status == acceleration_structure_status::BUILT,
        built == Some(ensure_built_spec(built, status, settings).unwrap()),
        settings.geometry_spec() == ensure_built_spec(built, status, settings),
{
}

/// Size and alignment of one ray of an `MPSRayDataType`.
pub open spec fn ray_layout_spec(ray_data_type: usize) -> Option<(usize, usize)> {
    if ray_data_type == ray_data_type::ORIGIN_DIRECTION {
        Some((32, 16))
    } else if ray_data_type == ray_data_type::ORIGIN_MIN_DISTANCE_DIRECTION_MAX_DISTANCE
        || ray_data_type == ray_data_type::ORIGIN_MASK_DIRECTION_MAX_DISTANCE {
        Some((32, 4))
    } else if ray_data_type == ray_data_type::PACKED_ORIGIN_DIRECTION {
        Some((24, 4))
    } else {
        None
    }
}

/// Size and alignment of one ray of an `MPSRayDataType`.
pub fn ray_layout(ray_data_type: usize) -> (r: Option<(usize, usize)>)
    ensures
        r == ray_layout_spec(ray_data_type),
{
    if ray_data_type == ray_data_type::ORIGIN_DIRECTION {
        Some((32, 16))
    } else if ray_data_type == ray_data_type::ORIGIN_MIN_DISTANCE_DIRECTION_MAX_DISTANCE
        || ray_data_type == ray_data_type::ORIGIN_MASK_DIRECTION_MAX_DISTANCE {
        Some((32, 4))
    } else if ray_data_type == ray_data_type::PACKED_ORIGIN_DIRECTION {
        Some((24, 4))
    } else {
        None
    }
}

/// Size and alignment of one intersection of an `MPSIntersectionDataType`.
pub open spec fn intersection_layout_spec(intersection_data_type: usize) -> Option<(usize, usize)> {
    let t = intersection_data_type;
    if t == intersection_data_type::DISTANCE {
        Some((4, 4))
    } else if t == intersection_data_type::DISTANCE_PRIMITIVE_INDEX {
        Some((8, 4))
    } else if t == intersection_data_type::DISTANCE_PRIMITIVE_INDEX_COORDINATES {
        Some((16, 8))
    } else if t == intersection_data_type::DISTANCE_PRIMITIVE_INDEX_INSTANCE_INDEX
        || t == intersection_data_type::DISTANCE_PRIMITIVE_INDEX_BUFFER_INDEX {
        Some((12, 4))
    } else if t == intersection_data_type::DISTANCE_PRIMITIVE_INDEX_INSTANCE_INDEX_COORDINATES
        || t == intersection_data_type::DISTANCE_PRIMITIVE_INDEX_BUFFER_INDEX_COORDINATES
        || t == intersection_data_type::DISTANCE_PRIMITIVE_INDEX_BUFFER_INDEX_INSTANCE_INDEX_COORDINATES {
        Some((24, 8))
    } else if t == intersection_data_type::DISTANCE_PRIMITIVE_INDEX_BUFFER_INDEX_INSTANCE_INDEX {
        Some((16, 4))
    } else {
        None
    }
}

/// Size and alignment of one intersection of an `MPSIntersectionDataType`.
pub fn intersection_layout(intersection_data_type: usize) -> (r: Option<(usize, usize)>)
    ensures
        r == intersection_layout_spec(intersection_data_type),
{
    let t = intersection_data_type;
    if t == intersection_data_type::DISTANCE {
        Some((4, 4))
    } else if t == intersection_data_type::DISTANCE_PRIMITIVE_INDEX {
        Some((8, 4))
    } else if t == intersection_data_type::DISTANCE_PRIMITIVE_INDEX_COORDINATES {
        Some((16, 8))
    } else if t == intersection_data_type::DISTANCE_PRIMITIVE_INDEX_INSTANCE_INDEX
        || t == intersection_data_type::DISTANCE_PRIMITIVE_INDEX_BUFFER_INDEX {
        Some((12, 4))
    } else if t == intersection_data_type::DISTANCE_PRIMITIVE_INDEX_INSTANCE_INDEX_COORDINATES
        || t == intersection_data_type::DISTANCE_PRIMITIVE_INDEX_BUFFER_INDEX_COORDINATES
        || t == intersection_data_type::DISTANCE_PRIMITIVE_INDEX_BUFFER_INDEX_INSTANCE_INDEX_COORDINATES {
        Some((24, 8))
    } else if t == intersection_data_type::DISTANCE_PRIMITIVE_INDEX_BUFFER_INDEX_INSTANCE_INDEX {
        Some((16, 4))
    } else {
        None
    }
}

/// What `effective_stride` returns.
pub open spec fn effective_stride_spec(field: &'static str, stride: usize, layout: (usize, usize)) -> Result<usize> {
    if stride == 0 {
        Ok(layout.0)
    } else if stride % layout.1 != 0 {
        Err(Error::Misaligned { field, value: stride, alignment: layout.1 })
    } else if stride < layout.0 {
        Err(Error::DimensionMismatch { field, expected: layout.0, actual: stride })
    } else {
        Ok(stride)
    }
}

/// The stride MPS walks records with: the record size when `stride` is 0,
/// else `stride` after checking that it is aligned and holds a record.
pub fn effective_stride(field: &'static str, stride: usize, layout: (usize, usize)) -> (r: Result<usize>)
    requires
        layout.1 > 0,
    ensures
        r == effective_stride_spec(field, stride, layout),
{
    let (size, alignment) = layout;
    if stride == 0 {
        return Ok(size);
    }
    if stride % alignment != 0 {
        return Err(Error::Misaligned { field, value: stride, alignment });
    }
    if stride < size {
        return Err(Error::DimensionMismatch { field, expected: size, actual: stride });
    }
    Ok(stride)
}

/// Bytes from the start of a buffer to the end of `count` records.
pub open spec fn records_end(offset: usize, stride: usize, size: usize, count: usize) -> int {
    if count == 0 {
        offset as int
    } else {
        (count - 1) * stride + size + offset
    }
}

/// What `ensure_records` returns.
pub open spec fn records_spec(
    field: &'static str,
    buffer_length: usize,
    offset: usize,
    stride: usize,
    size: usize,
    count: usize,
) -> Result<()> {
    if offset % stride != 0 {
        Err(Error::Misaligned { field, value: offset, alignment: stride })
    } else if records_end(offset, stride, size, count) > usize::MAX {
        Err(Error::Overflow)
    } else if records_end(offset, stride, size, count) > buffer_length {
        Err(Error::BufferTooSmall {
            required: records_end(offset, stride, size, count) as usize,
            length: buffer_length,
        })
    } else {
        Ok(())
    }
}

/// Checks that a buffer of `buffer_length` bytes holds `count` records of
/// `size` bytes, `stride` bytes apart, from a stride-aligned `offset`.
pub fn ensure_records(
    field: &'static str,
    buffer_length: usize,
    offset: usize,
    stride: usize,
    size: usize,
    count: usize,
) -> (r: Result<()>)
    requires
        stride > 0,
    ensures
        r == records_spec(field, buffer_length, offset, stride, size, count),
{
    if offset % stride != 0 {
        return Err(Error::Misaligned { field, value: offset, alignment: stride });
    }
    let required = if count == 0 {
        offset
    } else {
        proof {
            vstd::arithmetic::mul::lemma_mul_nonnegative(count - 1, stride as int);
        }
        let span = match (count - 1).checked_mul(stride) {
            Some(span) => span,
            None => return Err(Error::Overflow),
        };
        let end = match span.checked_add(size) {
            Some(end) => end,
            None => return Err(Error::Overflow),
        };
        match end.checked_add(offset) {
            Some(required) => required,
            None => return Err(Error::Overflow),
        }
    };
    if required > buffer_length {
        return Err(Error::BufferTooSmall { required, length: buffer_length });
    }
    Ok(())
}

/// Every record that an accepted buffer is read or written at lies inside it.
pub proof fn lemma_records_fit(
    field: &'static str,
    buffer_length: usize,
    offset: usize,
    stride: usize,
    size: usize,
    count: usize,
    index: int,
)
    requires
        stride > 0,
        records_spec(field, buffer_length, offset, stride, size, count) is Ok,
        0 <= index < count,
    ensures
        offset + index * stride + size <= buffer_length,
{
    vstd::arithmetic::mul::lemma_mul_inequality(index, count - 1, stride as int);
}

/// For every ray data type, the stride rays are read with holds a whole ray
/// and keeps every ray at its alignment.
pub proof fn lemma_ray_stride_holds_rays(field: &'static str, stride: usize, ray_data_type: usize)
    requires
        ray_layout_spec(ray_data_type) is Some,
        effective_stride_spec(field, stride, ray_layout_spec(ray_data_type).unwrap()) is Ok,
    ensures
        ({
            let (size, alignment) = ray_layout_spec(ray_data_type).unwrap();
            let used = effective_stride_spec(field, stride, (size, alignment)).unwrap();
            used >= size && used % alignment == 0
        }),
{
}

/// For every intersection data type, the stride intersections are written
/// with holds a whole intersection and keeps every one at its alignment.
pub proof fn lemma_intersection_stride_holds_intersections(field: &'static str, stride: usize, intersection_data_type: usize)
    requires
        intersection_layout_spec(intersection_data_type) is Some,
        effective_stride_spec(field, stride, intersection_layout_spec(intersection_data_type).unwrap()) is Ok,
    ensures
        ({
            let (size, alignment) = intersection_layout_spec(intersection_data_type).unwrap();
            let used = effective_stride_spec(field, stride, (size, alignment)).unwrap();
            used >= size && used % alignment == 0
        }),
{
    let layout = intersection_layout_spec(intersection_data_type).unwrap();
    assert(layout == (4usize, 4usize) || layout == (8usize, 4usize) || layout == (16usize, 8usize)
        || layout == (12usize, 4usize) || layout == (24usize, 8usize) || layout == (16usize, 4usize));
    if layout == (4usize, 4usize) {
        assert(4usize % 4usize == 0);
    } else if layout == (8usize, 4usize) {
        assert(8usize % 4usize == 0);
    } else if layout == (16usize, 8usize) {
        assert(16usize % 8usize == 0);
    } else if layout == (12usize, 4usize) {
        assert(12usize % 4usize == 0);
    } else if layout == (24usize, 8usize) {
        assert(24usize % 8usize == 0);
    } else {
        assert(16usize % 4usize == 0);
    }
}

/// The settings of an `MPSRayIntersector` that an intersection encode reads.
#[derive(Debug, Clone, Copy)]
pub struct IntersectorSettings {
    pub ray_data_type: usize,
    pub intersection_data_type: usize,
    pub ray_stride: usize,
    pub intersection_stride: usize,
}

/// Where the rays are read from and the intersections written to.
#[derive(Debug, Clone, Copy)]
pub struct IntersectionBuffers {
    pub ray_buffer_length: usize,
    pub ray_buffer_offset: usize,
    pub intersection_buffer_length: usize,
    pub intersection_buffer_offset: usize,
    pub ray_count: usize,
}

impl IntersectorSettings {
    /// What `check_intersection` returns.
    pub open spec fn intersection_spec(
        self,
        intersection_type: usize,
        buffers: IntersectionBuffers,
        built: Option<Geometry>,
        status: usize,
        geometry: GeometrySettings,
    ) -> Result<()> {
        if intersection_type > intersection_type::ANY {
            Err(Error::InvalidArgument("intersection_type is not an MPSIntersectionType"))
        } else if ray_layout_spec(self.ray_data_type) is None {
            Err(Error::InvalidArgument("ray_data_type is not an MPSRayDataType"))
        } else if intersection_layout_spec(self.intersection_data_type) is None {
            Err(Error::InvalidArgument("intersection_data_type is not an MPSIntersectionDataType"))
        } else {
            let ray = ray_layout_spec(self.ray_data_type).unwrap();
            let hit = intersection_layout_spec(self.intersection_data_type).unwrap();
            let ray_stride = effective_stride_spec("ray_stride", self.ray_stride, ray);
            let hit_stride = effective_stride_spec("intersection_stride", self.intersection_stride, hit);
            if ray_stride is Err {
                Err(ray_stride->Err_0)
            } else if hit_stride is Err {
                Err(hit_stride->Err_0)
            } else {
                let rays = records_spec(
                    "ray_buffer_offset",
                    buffers.ray_buffer_length,
                    buffers.ray_buffer_offset,
                    ray_stride.unwrap(),
                    ray.0,
                    buffers.ray_count,
                );
                let hits = records_spec(
                    "intersection_buffer_offset",
                    buffers.intersection_buffer_length,
                    buffers.intersection_buffer_offset,
                    hit_stride.unwrap(),
                    hit.0,
                    buffers.ray_count,
                );
                if rays is Err {
                    rays
                } else if hits is Err {
                    hits
                } else {
                    match ensure_built_spec(built, status, geometry) {
                        Err(error) => Err(error),
                        Ok(_) => Ok(()),
                    }
                }
            }
        }
    }

    /// Checks an intersection encode: a known intersection type, known ray
    /// and intersection layouts with valid strides, ray and intersection
    /// buffers that hold `ray_count` records, and a current rebuild.
    pub fn check_intersection(
        &self,
        intersection_type: usize,
        buffers: IntersectionBuffers,
        structure: &BuildState,
        status: usize,
        geometry: &GeometrySettings,
    ) -> (r: Result<()>)
        ensures
            r == self.intersection_spec(intersection_type, buffers, structure@, status, *geometry),
    {
        if intersection_type > intersection_type::ANY {
            return Err(Error::InvalidArgument("intersection_type is not an MPSIntersectionType"));
        }
        let ray = match ray_layout(self.ray_data_type) {
            Some(layout) => layout,
            None => return Err(Error::InvalidArgument("ray_data_type is not an MPSRayDataType")),
        };
        let hit = match intersection_layout(self.intersection_data_type) {
            Some(layout) => layout,
            None => return Err(Error::InvalidArgument(
                "intersection_data_type is not an MPSIntersectionDataType",
            )),
        };
        let ray_stride = match effective_stride("ray_stride", self.ray_stride, ray) {
            Ok(stride) => stride,
            Err(error) => return Err(error),
        };
        let hit_stride = match effective_stride("intersection_stride", self.intersection_stride, hit) {
            Ok(stride) => stride,
            Err(error) => return Err(error),
        };
        let rays = ensure_records(
            "ray_buffer_offset",
            buffers.ray_buffer_length,
            buffers.ray_buffer_offset,
            ray_stride,
            ray.0,
            buffers.ray_count,
        );
        if rays.is_err() {
            return rays;
        }
        let hits = ensure_records(
            "intersection_buffer_offset",
            buffers.intersection_buffer_length,
            buffers.intersection_buffer_offset,
            hit_stride,
            hit.0,
            buffers.ray_count,
        );
        if hits.is_err() {
            return hits;
        }
        match structure.ensure_built(status, geometry) {
            Ok(_) => Ok(()),
            Err(error) => Err(error),
        }
    }
}

/// An accepted intersection encode reads every ray and writes every
/// intersection inside its buffer, on a structure rebuilt from the current settings.
pub proof fn lemma_accepted_intersection_stays_in_buffers(
    settings: IntersectorSettings,
    intersection_type: usize,
    buffers: IntersectionBuffers,
    built: Option<Geometry>,
    status: usize,
    geometry: GeometrySettings,
    index: int,
)
    requires
        settings.intersection_spec(intersection_type, buffers, built, status, geometry) is Ok,
        0 <= index < buffers.ray_count,
    ensures
        ({
            let ray = ray_layout_spec(settings.ray_data_type).unwrap();
            let hit = intersection_layout_spec(settings.intersection_data_type).unwrap();
            let ray_stride = effective_stride_spec("ray_stride", settings.ray_stride, ray).unwrap();
            let hit_stride = effective_stride_spec("intersection_stride", settings.intersection_stride, hit).unwrap();
            &&& buffers.ray_buffer_offset + index * ray_stride + ray.0 <= buffers.ray_buffer_length
            &&& buffers.intersection_buffer_offset + index * hit_stride + hit.0 <= buffers.intersection_buffer_length
            &&& ensure_built_spec(built, status, geometry) is Ok
        }),
{
    let ray = ray_layout_spec(settings.ray_data_type).unwrap();
    let hit = intersection_layout_spec(settings.intersection_data_type).unwrap();
    let ray_stride = effective_stride_spec("ray_stride", settings.ray_stride, ray).unwrap();
    let hit_stride = effective_stride_spec("intersection_stride", settings.intersection_stride, hit).unwrap();
    lemma_records_fit("ray_buffer_offset", buffers.ray_buffer_length, buffers.ray_buffer_offset,
        ray_stride, ray.0, buffers.ray_count, index);
    lemma_records_fit("intersection_buffer_offset", buffers.intersection_buffer_length,
        buffers.intersection_buffer_offset, hit_stride, hit.0, buffers.ray_count, index);
}

/// An accepted rebuild without an index buffer reads every corner's vertex
/// inside the vertex buffer; with one, it holds every corner's index.
pub proof fn lemma_accepted_geometry_stays_in_buffers(settings: GeometrySettings, corner: int)
    requires
        settings.geometry_spec() is Ok,
        0 <= corner < settings.polygon_count * vertices_per_polygon(settings.polygon_type).unwrap(),
    ensures
        ({
            let corners = settings.polygon_count * vertices_per_polygon(settings.polygon_type).unwrap();
            let stride = settings.effective_vertex_stride();
            &&& stride >= VERTEX_SIZE && stride % 4 == 0
            &&& settings.geometry_spec().unwrap().index_type is None ==>
                settings.vertex_buffer_offset + corner * stride + VERTEX_SIZE <= settings.vertex_buffer_length
            &&& settings.geometry_spec().unwrap().index_type matches Some(t) ==>
                settings.index_buffer_offset + corners * index_size(t).unwrap() <= settings.index_buffer_length
        }),
{
    let corners = settings.polygon_count * vertices_per_polygon(settings.polygon_type).unwrap();
    let stride = settings.effective_vertex_stride();
    vstd::arithmetic::mul::lemma_mul_inequality(corner, corners - 1, stride as int);
}

/// `value` rounded up to a multiple of `alignment`.
pub open spec fn align_up(value: int, alignment: int) -> int {
    if value % alignment == 0 {
        value
    } else {
        value + (alignment - value % alignment)
    }
}

/// Where the last of `fields` (size, alignment) ends when they are laid out
/// in order, each at the next offset its alignment allows.
pub open spec fn fields_end(fields: Seq<(int, int)>) -> int
    decreases fields.len(),
{
    if fields.len() == 0 {
        0
    } else {
        align_up(fields_end(fields.drop_last()), fields.last().1) + fields.last().0
    }
}

/// The strictest alignment among `fields`.
pub open spec fn fields_alignment(fields: Seq<(int, int)>) -> int
    decreases fields.len(),
{
    if fields.len() == 0 {
        1
    } else if fields_alignment(fields.drop_last()) >= fields.last().1 {
        fields_alignment(fields.drop_last())
    } else {
        fields.last().1
    }
}

/// The size and alignment of a C struct with these fields.
pub open spec fn struct_layout(fields: Seq<(int, int)>) -> (int, int) {
    (align_up(fields_end(fields), fields_alignment(fields)), fields_alignment(fields))
}

/// Size and alignment of the SDK's field types.
pub open spec fn float_field() -> (int, int) { (4, 4) }
pub open spec fn uint_field() -> (int, int) { (4, 4) }
pub open spec fn packed_float3_field() -> (int, int) { (12, 4) }
pub open spec fn float3_field() -> (int, int) { (16, 16) }
pub open spec fn float2_field() -> (int, int) { (8, 8) }

/// The fields of the SDK struct each `MPSRayDataType` names.
pub open spec fn ray_fields(ray_data_type: usize) -> Option<Seq<(int, int)>> {
    if ray_data_type == ray_data_type::ORIGIN_DIRECTION {
        // MPSRayOriginDirection: vector_float3 origin, direction.
        Some(seq![float3_field(), float3_field()])
    } else if ray_data_type == ray_data_type::ORIGIN_MIN_DISTANCE_DIRECTION_MAX_DISTANCE {
        // MPSRayOriginMinDistanceDirectionMaxDistance.
        Some(seq![packed_float3_field(), float_field(), packed_float3_field(), float_field()])
    } else if ray_data_type == ray_data_type::ORIGIN_MASK_DIRECTION_MAX_DISTANCE {
        // MPSRayOriginMaskDirectionMaxDistance.
        Some(seq![packed_float3_field(), uint_field(), packed_float3_field(), float_field()])
    } else if ray_data_type == ray_data_type::PACKED_ORIGIN_DIRECTION {
        // MPSRayPackedOriginDirection: packed_float3 origin, direction.
        Some(seq![packed_float3_field(), packed_float3_field()])
    } else {
        None
    }
}

/// The fields of the SDK struct each `MPSIntersectionDataType` names: a
/// float distance, then the unsigned indices it lists, then vector_float2
/// barycentric coordinates when it has them.
pub open spec fn intersection_fields(intersection_data_type: usize) -> Option<Seq<(int, int)>> {
    let t = intersection_data_type;
    let d = float_field();
    let i = uint_field();
    let c = float2_field();
    if t == intersection_data_type::DISTANCE {
        Some(seq![d])
    } else if t == intersection_data_type::DISTANCE_PRIMITIVE_INDEX {
        Some(seq![d, i])
    } else if t == intersection_data_type::DISTANCE_PRIMITIVE_INDEX_COORDINATES {
        Some(seq![d, i, c])
    } else if t == intersection_data_type::DISTANCE_PRIMITIVE_INDEX_INSTANCE_INDEX
        || t == intersection_data_type::DISTANCE_PRIMITIVE_INDEX_BUFFER_INDEX {
        Some(seq![d, i, i])
    } else if t == intersection_data_type::DISTANCE_PRIMITIVE_INDEX_INSTANCE_INDEX_COORDINATES
        || t == intersection_data_type::DISTANCE_PRIMITIVE_INDEX_BUFFER_INDEX_COORDINATES {
        Some(seq![d, i, i, c])
    } else if t == intersection_data_type::DISTANCE_PRIMITIVE_INDEX_BUFFER_INDEX_INSTANCE_INDEX {
        Some(seq![d, i, i, i])
    } else if t == intersection_data_type::DISTANCE_PRIMITIVE_INDEX_BUFFER_INDEX_INSTANCE_INDEX_COORDINATES {
        Some(seq![d, i, i, i, c])
    } else {
        None
    }
}

proof fn lemma_align_up_values()
    ensures
        align_up(0, 4) == 0,
        align_up(0, 16) == 0,
        align_up(4, 4) == 4,
        align_up(8, 4) == 8,
        align_up(8, 8) == 8,
        align_up(12, 4) == 12,
        align_up(12, 8) == 16,
        align_up(16, 4) == 16,
        align_up(16, 8) == 16,
        align_up(16, 16) == 16,
        align_up(24, 4) == 24,
        align_up(24, 8) == 24,
        align_up(28, 4) == 28,
        align_up(32, 4) == 32,
        align_up(32, 16) == 32,
{
}

proof fn lemma_push_layout(fields: Seq<(int, int)>, field: (int, int))
    ensures
        fields_end(fields.push(field)) == align_up(fields_end(fields), field.1) + field.0,
        fields_alignment(fields.push(field)) == (if fields_alignment(fields) >= field.1 {
            fields_alignment(fields)
        } else {
            field.1
        }),
{
    assert(fields.push(field).drop_last() =~= fields);
}

proof fn lemma_step_layout(fields: Seq<(int, int)>, i: int)
    requires
        0 <= i < fields.len(),
    ensures
        fields_end(fields.take(i + 1)) == align_up(fields_end(fields.take(i)), fields[i].1) + fields[i].0,
        fields_alignment(fields.take(i + 1)) == (if fields_alignment(fields.take(i)) >= fields[i].1 {
            fields_alignment(fields.take(i))
        } else {
            fields[i].1
        }),
{
    assert(fields.take(i + 1) =~= fields.take(i).push(fields[i]));
    lemma_push_layout(fields.take(i), fields[i]);
}

/// Lays out `fields` one prefix at a time.
proof fn lemma_unfold_layout(fields: Seq<(int, int)>)
    requires
        fields.len() <= 5,
    ensures
        fields_end(fields.take(0)) == 0,
        fields_alignment(fields.take(0)) == 1,
        fields.len() >= 1 ==> fields_end(fields.take(1)) == align_up(fields_end(fields.take(0)), fields[0].1) + fields[0].0,
        fields.len() >= 2 ==> fields_end(fields.take(2)) == align_up(fields_end(fields.take(1)), fields[1].1) + fields[1].0,
        fields.len() >= 3 ==> fields_end(fields.take(3)) == align_up(fields_end(fields.take(2)), fields[2].1) + fields[2].0,
        fields.len() >= 4 ==> fields_end(fields.take(4)) == align_up(fields_end(fields.take(3)), fields[3].1) + fields[3].0,
        fields.len() >= 5 ==> fields_end(fields.take(5)) == align_up(fields_end(fields.take(4)), fields[4].1) + fields[4].0,
        fields.len() >= 1 ==> fields_alignment(fields.take(1)) == (if fields_alignment(fields.take(0)) >= fields[0].1 { fields_alignment(fields.take(0)) } else { fields[0].1 }),
        fields.len() >= 2 ==> fields_alignment(fields.take(2)) == (if fields_alignment(fields.take(1)) >= fields[1].1 { fields_alignment(fields.take(1)) } else { fields[1].1 }),
        fields.len() >= 3 ==> fields_alignment(fields.take(3)) == (if fields_alignment(fields.take(2)) >= fields[2].1 { fields_alignment(fields.take(2)) } else { fields[2].1 }),
        fields.len() >= 4 ==> fields_alignment(fields.take(4)) == (if fields_alignment(fields.take(3)) >= fields[3].1 { fields_alignment(fields.take(3)) } else { fields[3].1 }),
        fields.len() >= 5 ==> fields_alignment(fields.take(5)) == (if fields_alignment(fields.take(4)) >= fields[4].1 { fields_alignment(fields.take(4)) } else { fields[4].1 }),
        fields.take(fields.len() as int) == fields,
{
    assert(fields.take(fields.len() as int) =~= fields);
    assert(fields.take(0) =~= Seq::<(int, int)>::empty());
    if fields.len() >= 1 {
        lemma_step_layout(fields, 0);
    }
    if fields.len() >= 2 {
        lemma_step_layout(fields, 1);
    }
    if fields.len() >= 3 {
        lemma_step_layout(fields, 2);
    }
    if fields.len() >= 4 {
        lemma_step_layout(fields, 3);
    }
    if fields.len() >= 5 {
        lemma_step_layout(fields, 4);
    }
}

/// Each ray record is laid out as the C struct of its `MPSRayDataType`:
/// its size and alignment are that struct's, and unknown types have none.
pub proof fn lemma_ray_layout_is_sdk_struct(ray_data_type: usize)
    ensures
        match ray_fields(ray_data_type) {
            None => ray_layout_spec(ray_data_type) is None,
            Some(fields) => ray_layout_spec(ray_data_type) == Some(
                (struct_layout(fields).0 as usize, struct_layout(fields).1 as usize),
            ),
        },
{
    if ray_data_type == ray_data_type::ORIGIN_DIRECTION {
        let fields = if let Some(f) = ray_fields(ray_data_type) { f } else { Seq::empty() };
        lemma_unfold_layout(fields);
        lemma_align_up_values();
        assert(fields[0] == (16int, 16int));
        assert(fields[1] == (16int, 16int));
        assert(fields_end(fields.take(1)) == 16);
        assert(fields_end(fields.take(2)) == 32);
        assert(struct_layout(fields) == (32int, 16int));
    }
    if ray_data_type == ray_data_type::ORIGIN_MIN_DISTANCE_DIRECTION_MAX_DISTANCE {
        let fields = if let Some(f) = ray_fields(ray_data_type) { f } else { Seq::empty() };
        lemma_unfold_layout(fields);
        lemma_align_up_values();
        assert(fields[0] == (12int, 4int));
        assert(fields[1] == (4int, 4int));
        assert(fields[2] == (12int, 4int));
        assert(fields[3] == (4int, 4int));
        assert(fields_end(fields.take(1)) == 12);
        assert(fields_end(fields.take(2)) == 16);
        assert(fields_end(fields.take(3)) == 28);
        assert(fields_end(fields.take(4)) == 32);
        assert(struct_layout(fields) == (32int, 4int));
    }
    if ray_data_type == ray_data_type::ORIGIN_MASK_DIRECTION_MAX_DISTANCE {
        let fields = if let Some(f) = ray_fields(ray_data_type) { f } else { Seq::empty() };
        lemma_unfold_layout(fields);
        lemma_align_up_values();
        assert(fields[0] == (12int, 4int));
        assert(fields[1] == (4int, 4int));
        assert(fields[2] == (12int, 4int));
        assert(fields[3] == (4int, 4int));
        assert(fields_end(fields.take(1)) == 12);
        assert(fields_end(fields.take(2)) == 16);
        assert(fields_end(fields.take(3)) == 28);
        assert(fields_end(fields.take(4)) == 32);
        assert(struct_layout(fields) == (32int, 4int));
    }
    if ray_data_type == ray_data_type::PACKED_ORIGIN_DIRECTION {
        let fields = if let Some(f) = ray_fields(ray_data_type) { f } else { Seq::empty() };
        lemma_unfold_layout(fields);
        lemma_align_up_values();
        assert(fields[0] == (12int, 4int));
        assert(fields[1] == (12int, 4int));
        assert(fields_end(fields.take(1)) == 12);
        assert(fields_end(fields.take(2)) == 24);
        assert(struct_layout(fields) == (24int, 4int));
    }
}

/// Each intersection record is laid out as the C struct of its
/// `MPSIntersectionDataType`.
pub proof fn lemma_intersection_layout_is_sdk_struct(intersection_data_type: usize)
    ensures
        match intersection_fields(intersection_data_type) {
            None => intersection_layout_spec(intersection_data_type) is None,
            Some(fields) => intersection_layout_spec(intersection_data_type) == Some(
                (struct_layout(fields).0 as usize, struct_layout(fields).1 as usize),
            ),
        },
{
    if intersection_data_type == intersection_data_type::DISTANCE {
        let fields = if let Some(f) = intersection_fields(intersection_data_type) { f } else { Seq::empty() };
        lemma_unfold_layout(fields);
        lemma_align_up_values();
        assert(fields[0] == (4int, 4int));
        assert(fields_end(fields.take(1)) == 4);
        assert(struct_layout(fields) == (4int, 4int));
    }
    if intersection_data_type == intersection_data_type::DISTANCE_PRIMITIVE_INDEX {
        let fields = if let Some(f) = intersection_fields(intersection_data_type) { f } else { Seq::empty() };
        lemma_unfold_layout(fields);
        lemma_align_up_values();
        assert(fields[0] == (4int, 4int));
        assert(fields[1] == (4int, 4int));
        assert(fields_end(fields.take(1)) == 4);
        assert(fields_end(fields.take(2)) == 8);
        assert(struct_layout(fields) == (8int, 4int));
    }
    if intersection_data_type == intersection_data_type::DISTANCE_PRIMITIVE_INDEX_COORDINATES {
        let fields = if let Some(f) = intersection_fields(intersection_data_type) { f } else { Seq::empty() };
        lemma_unfold_layout(fields);
        lemma_align_up_values();
        assert(fields[0] == (4int, 4int));
        assert(fields[1] == (4int, 4int));
        assert(fields[2] == (8int, 8int));
        assert(fields_end(fields.take(1)) == 4);
        assert(fields_end(fields.take(2)) == 8);
        assert(fields_end(fields.take(3)) == 16);
        assert(struct_layout(fields) == (16int, 8int));
    }
    if intersection_data_type == intersection_data_type::DISTANCE_PRIMITIVE_INDEX_INSTANCE_INDEX {
        let fields = if let Some(f) = intersection_fields(intersection_data_type) { f } else { Seq::empty() };
        lemma_unfold_layout(fields);
        lemma_align_up_values();
        assert(fields[0] == (4int, 4int));
        assert(fields[1] == (4int, 4int));
        assert(fields[2] == (4int, 4int));
        assert(fields_end(fields.take(1)) == 4);
        assert(fields_end(fields.take(2)) == 8);
        assert(fields_end(fields.take(3)) == 12);
        assert(struct_layout(fields) == (12int, 4int));
    }
    if intersection_data_type == intersection_data_type::DISTANCE_PRIMITIVE_INDEX_BUFFER_INDEX {
        let fields = if let Some(f) = intersection_fields(intersection_data_type) { f } else { Seq::empty() };
        lemma_unfold_layout(fields);
        lemma_align_up_values();
        assert(fields[0] == (4int, 4int));
        assert(fields[1] == (4int, 4int));
        assert(fields[2] == (4int, 4int));
        assert(fields_end(fields.take(1)) == 4);
        assert(fields_end(fields.take(2)) == 8);
        assert(fields_end(fields.take(3)) == 12);
        assert(struct_layout(fields) == (12int, 4int));
    }
    if intersection_data_type == intersection_data_type::DISTANCE_PRIMITIVE_INDEX_INSTANCE_INDEX_COORDINATES {
        let fields = if let Some(f) = intersection_fields(intersection_data_type) { f } else { Seq::empty() };
        lemma_unfold_layout(fields);
        lemma_align_up_values();
        assert(fields[0] == (4int, 4int));
        assert(fields[1] == (4int, 4int));
        assert(fields[2] == (4int, 4int));
        assert(fields[3] == (8int, 8int));
        assert(fields_end(fields.take(1)) == 4);
        assert(fields_end(fields.take(2)) == 8);
        assert(fields_end(fields.take(3)) == 12);
        assert(fields_end(fields.take(4)) == 24);
        assert(struct_layout(fields) == (24int, 8int));
    }
    if intersection_data_type == intersection_data_type::DISTANCE_PRIMITIVE_INDEX_BUFFER_INDEX_COORDINATES {
        let fields = if let Some(f) = intersection_fields(intersection_data_type) { f } else { Seq::empty() };
        lemma_unfold_layout(fields);
        lemma_align_up_values();
        assert(fields[0] == (4int, 4int));
        assert(fields[1] == (4int, 4int));
        assert(fields[2] == (4int, 4int));
        assert(fields[3] == (8int, 8int));
        assert(fields_end(fields.take(1)) == 4);
        assert(fields_end(fields.take(2)) == 8);
        assert(fields_end(fields.take(3)) == 12);
        assert(fields_end(fields.take(4)) == 24);
        assert(struct_layout(fields) == (24int, 8int));
    }
    if intersection_data_type == intersection_data_type::DISTANCE_PRIMITIVE_INDEX_BUFFER_INDEX_INSTANCE_INDEX {
        let fields = if let Some(f) = intersection_fields(intersection_data_type) { f } else { Seq::empty() };
        lemma_unfold_layout(fields);
        lemma_align_up_values();
        assert(fields[0] == (4int, 4int));
        assert(fields[1] == (4int, 4int));
        assert(fields[2] == (4int, 4int));
        assert(fields[3] == (4int, 4int));
        assert(fields_end(fields.take(1)) == 4);
        assert(fields_end(fields.take(2)) == 8);
        assert(fields_end(fields.take(3)) == 12);
        assert(fields_end(fields.take(4)) == 16);
        assert(struct_layout(fields) == (16int, 4int));
    }
    if intersection_data_type == intersection_data_type::DISTANCE_PRIMITIVE_INDEX_BUFFER_INDEX_INSTANCE_INDEX_COORDINATES {
        let fields = if let Some(f) = intersection_fields(intersection_data_type) { f } else { Seq::empty() };
        lemma_unfold_layout(fields);
        lemma_align_up_values();
        assert(fields[0] == (4int, 4int));
        assert(fields[1] == (4int, 4int));
        assert(fields[2] == (4int, 4int));
        assert(fields[3] == (4int, 4int));
        assert(fields[4] == (8int, 8int));
        assert(fields_end(fields.take(1)) == 4);
        assert(fields_end(fields.take(2)) == 8);
        assert(fields_end(fields.take(3)) == 12);
        assert(fields_end(fields.take(4)) == 16);
        assert(fields_end(fields.take(5)) == 24);
        assert(struct_layout(fields) == (24int, 8int));
    }
}

} // verus!
