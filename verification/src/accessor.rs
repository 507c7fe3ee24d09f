//! The accessor classes for the two table types of the Move standard
//! library, as TypeScript text, and the rule by which a field is accepted
//! as one of them.

use vstd::prelude::*;

verus! {

/// The class that reads entries of a `0x1::Table::Table`.
pub const TABLE_HELPER_DECL: &'static str = r###"
export class TypedTable<K, V> {
  static buildFromField<K, V>(table: Table, field: FieldDeclType): TypedTable<K, V> {
    const tag = field.typeTag;
    if (!(tag instanceof StructTag)) {
      throw new Error();
    }
    if (tag.getParamlessName() !== '0x1::Table::Table') {
      throw new Error();
    }
    if (tag.typeParams.length !== 2) {
      throw new Error();
    }
    const [keyTag, valueTag] = tag.typeParams;
    return new TypedTable<K, V>(table, keyTag, valueTag);
  }

  constructor(
    public table: Table,
    public keyTag: TypeTag,
    public valueTag: TypeTag
  ) {
  }

  async loadEntryRaw(client: AptosClient, key: K): Promise<any> {
    return await client.getTableItem(this.table.handle.value.toString(), {
      key_type: $.getTypeTagFullname(this.keyTag),
      value_type: $.getTypeTagFullname(this.valueTag),
      key: $.moveValueToOpenApiObject(key, this.keyTag),
    });
  }

  async loadEntry(client: AptosClient, repo: AptosParserRepo, key: K): Promise<V> {
    const rawVal = await this.loadEntryRaw(client, key);
    return repo.parse(rawVal.data, this.valueTag);
  }
}
"###;

/// The class that reads and walks a `0x1::IterableTable::IterableTable`.
pub const ITERABLE_TABLE_HELPER_DECL: &'static str = r###"
export class TypedIterableTable<K, V> {
  static buildFromField<K, V>(table: IterableTable, field: FieldDeclType): TypedIterableTable<K, V> {
    const tag = field.typeTag;
    if (!(tag instanceof StructTag)) {
      throw new Error();
    }
    if (tag.getParamlessName() !== '0x1::IterableTable::IterableTable') {
      throw new Error();
    }
    if (tag.typeParams.length !== 2) {
      throw new Error();
    }
    const [keyTag, valueTag] = tag.typeParams;
    return new TypedIterableTable<K, V>(table, keyTag, valueTag);
  }

  iterValueTag: StructTag;
  constructor(
    public table: IterableTable,
    public keyTag: TypeTag,
    public valueTag: TypeTag
  ) {
    this.iterValueTag = new StructTag(moduleAddress, moduleName, "IterableValue", [keyTag, valueTag])
  }

  async loadEntryRaw(client: AptosClient, key: K): Promise<any> {
    return await client.getTableItem(this.table.inner.handle.value.toString(), {
      key_type: $.getTypeTagFullname(this.keyTag),
      value_type: $.getTypeTagFullname(this.iterValueTag),
      key: $.moveValueToOpenApiObject(key, this.keyTag),
    });
  }

  async loadEntry(client: AptosClient, repo: AptosParserRepo, key: K): Promise<IterableValue> {
    const rawVal = await this.loadEntryRaw(client, key);
    return repo.parse(rawVal.data, this.iterValueTag) as IterableValue;
  }

  async fetchAll(client: AptosClient, repo: AptosParserRepo): Promise<[K, V][]> {
    const result: [K, V][] = [];
    const cache = new $.DummyCache();
    let next = this.table.head;
    while(next && Std.Option.is_some$(next, cache, [this.keyTag])) {
      const key = Std.Option.borrow$(next, cache, [this.keyTag]) as K;
      const iterVal = await this.loadEntry(client, repo, key);
      const value = iterVal.val as V;
      result.push([key, value]);
      next = iterVal.next;
    }
    return result;
  }
}
"###;

/// The declaration of `TypedTable`, to stand in the module emitted for
/// `0x1::Table`.
pub fn get_table_helper_decl() -> (decl: String)
    ensures
        decl@ == TABLE_HELPER_DECL@,
{
    TABLE_HELPER_DECL.to_string()
}

/// The declaration of `TypedIterableTable`, to stand in the module emitted
/// for `0x1::IterableTable`.
pub fn get_iterable_table_helper_decl() -> (decl: String)
    ensures
        decl@ == ITERABLE_TABLE_HELPER_DECL@,
{
    ITERABLE_TABLE_HELPER_DECL.to_string()
}

} // verus!
