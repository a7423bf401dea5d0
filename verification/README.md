# yeti_bigfile

A reader for the packed "bigfile" archives of the Yeti engine (Beyond Good & Evil):
headers, file and folder tables, object data with its references, and the loaders of
the object types (scripts, meshes, textures, skeletons, sounds, shaders, AI constants,
game objects, zones, tables, ...), with reference-counted loading and unloading and an
amortised loader that follows references.

In the library under `src/` every object format is stated as a spec function over the
bytes, and each loader is proved to produce exactly that, to fail with the stated message
where the data is refused, and never to panic.

- `bytes`, `text`, `error`: a byte reader, strings and errors.
- `metadata`, `object_type`, `io`: headers, entries, table layout and payloads.
- `objects`: one module per object type (`xml_consts` reads XML constant lists);
  `archetype` dispatches on the type, and `objects::YetiObject` holds the load count,
  references and loaded form of an object.
- `bigfile`: the tables of a bigfile, reached through a `BigfileIO` that the application
  supplies; `loader`: loading a key and what it refers to, a batch at a time. The load of
  an XML constant list is finished from its XML events (`finish_xml_const_list`), whose
  float readings the application makes.
- `texture_util`, `export`: the integer decisions of a glTF exporter (texture pass-throughs,
  material kinds and texture slots, the grouping of a game object's meshes and materials,
  pixel rearrangements, extruded way indices, alignment). The exporter itself, which builds
  the glTF document out of float geometry, is not part of this crate; the program below
  exports meshes as Wavefront OBJ only.
- `laws`: properties of the library stated and proved over its spec functions.

`app/` is the command-line program around it: reading the packed file from disk, the
float readings of XML constant lists, JSON configuration, floating-point views and logging.
