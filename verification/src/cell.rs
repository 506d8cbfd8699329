//! Grid tiles: terrain plus at most one occupant.
//!
//! A cell owns at most one occupant, either a unit or an item, never both:
//! the occupant is a sum type, so the exclusion is structural. Placing a
//! unit fails if a unit is already present and destroys any item present;
//! items never displace anything.

use vstd::prelude::*;

use crate::item::Item;
use crate::unit::Unit;

verus! {

/// Errors returned by cell occupancy operations.
#[derive(Debug, Clone, Copy, PartialEq, Eq, Structural)]
pub enum CellError {
    /// A unit already occupies the cell.
    CellTaken,
    /// No unit occupies the cell.
    CellNotOccupied,
}

/// The environmental category of a cell, affecting movement cost and
/// strategic value.
#[derive(Debug, Clone, Copy, PartialEq, Eq, Structural)]
pub enum Terrain {
    Plains,
    Forest,
    Mountain,
    Desert,
    Swamp,
    Tundra,
    Hills,
    Lake,
    Ruins,
    Road,
}

impl Terrain {
    /// The fixed movement-cost modifier of this terrain.
    pub open spec fn spec_movement_cost(self) -> u32 {
        match self {
            Terrain::Plains => 1,
            Terrain::Forest => 2,
            Terrain::Mountain => 3,
            Terrain::Desert => 2,
            Terrain::Swamp => 3,
            Terrain::Tundra => 2,
            Terrain::Hills => 2,
            Terrain::Lake => 4,
            Terrain::Ruins => 1,
            Terrain::Road => 1,
        }
    }

    /// Movement cost of entering a cell of this terrain.
    pub fn movement_cost(&self) -> (r: u32)
        ensures
            r == self.spec_movement_cost(),
    {
        match *self {
            Terrain::Plains => 1,
            Terrain::Forest => 2,
            Terrain::Mountain => 3,
            Terrain::Desert => 2,
            Terrain::Swamp => 3,
            Terrain::Tundra => 2,
            Terrain::Hills => 2,
            Terrain::Lake => 4,
            Terrain::Ruins => 1,
            Terrain::Road => 1,
        }
    }

    /// Whether tiles of this terrain carry special gameplay significance
    /// (resource production or a defense bonus).
    pub open spec fn spec_is_strategic_point(self) -> bool {
        match self {
            Terrain::Mountain => true,
            Terrain::Hills => true,
            Terrain::Ruins => true,
            _ => false,
        }
    }

    /// Whether this terrain marks a strategic point.
    pub fn is_strategic_point(&self) -> (r: bool)
        ensures
            r == self.spec_is_strategic_point(),
    {
        match *self {
            Terrain::Mountain => true,
            Terrain::Hills => true,
            Terrain::Ruins => true,
            _ => false,
        }
    }
}

/// What currently sits on a cell: nothing, a unit, or an item.
pub enum Occupant {
    Empty,
    Occupied(Unit),
    HoldsItem(Item),
}

/// One grid tile: terrain, at most one occupant, and its rectangle in grid
/// units (top-left and bottom-right corners).
pub struct Cell {
    pub terrain: Terrain,
    pub occupant: Occupant,
    pub top_left: (i32, i32),
    pub bottom_right: (i32, i32),
}

impl Cell {
    /// A fresh, empty cell of the given terrain and rectangle.
    pub fn new(terrain: Terrain, top_left: (i32, i32), bottom_right: (i32, i32)) -> (r: Cell)
        ensures
            r.terrain == terrain,
            r.occupant is Empty,
            r.top_left == top_left,
            r.bottom_right == bottom_right,
    {
        Cell { terrain, occupant: Occupant::Empty, top_left, bottom_right }
    }

    pub fn has_unit(&self) -> (r: bool)
        ensures
            r == (self.occupant is Occupied),
    {
        matches!(self.occupant, Occupant::Occupied(_))
    }

    pub fn has_item(&self) -> (r: bool)
        ensures
            r == (self.occupant is HoldsItem),
    {
        matches!(self.occupant, Occupant::HoldsItem(_))
    }

    /// Everything but the occupant is unchanged.
    pub open spec fn same_but_occupant(pre: Cell, post: Cell) -> bool {
        &&& post.terrain == pre.terrain
        &&& post.top_left == pre.top_left
        &&& post.bottom_right == pre.bottom_right
    }

    /// Installs a unit. Fails with `CellTaken`, leaving the existing
    /// occupant untouched, if a unit is already present; otherwise any item
    /// present is destroyed and the unit takes the cell.
    pub fn add_unit(&mut self, unit: Unit) -> (r: Result<(), CellError>)
        ensures
            r is Ok <==> !(old(self).occupant is Occupied),
            r is Ok ==> final(self).occupant == Occupant::Occupied(unit),
            r matches Err(e) ==> e == CellError::CellTaken && *final(self) == *old(self),
            Self::same_but_occupant(*old(self), *final(self)),
    {
        if self.has_unit() {
            return Err(CellError::CellTaken);
        }
        self.occupant = Occupant::Occupied(unit);
        Ok(())
    }

    /// Clears the occupying unit. Fails with `CellNotOccupied`, changing
    /// nothing, if no unit is present.
    pub fn remove_unit(&mut self) -> (r: Result<(), CellError>)
        ensures
            r is Ok <==> old(self).occupant is Occupied,
            r is Ok ==> final(self).occupant is Empty,
            r matches Err(e) ==> e == CellError::CellNotOccupied && *final(self) == *old(self),
            Self::same_but_occupant(*old(self), *final(self)),
    {
        if !self.has_unit() {
            return Err(CellError::CellNotOccupied);
        }
        self.occupant = Occupant::Empty;
        Ok(())
    }

    /// Lays an item on the cell. Fails with `CellTaken`, changing nothing,
    /// unless the cell is empty: items displace neither units nor items.
    pub fn add_item(&mut self, item: Item) -> (r: Result<(), CellError>)
        ensures
            r is Ok <==> old(self).occupant is Empty,
            r is Ok ==> final(self).occupant == Occupant::HoldsItem(item),
            r matches Err(e) ==> e == CellError::CellTaken && *final(self) == *old(self),
            Self::same_but_occupant(*old(self), *final(self)),
    {
        match self.occupant {
            Occupant::Empty => {
                self.occupant = Occupant::HoldsItem(item);
                Ok(())
            },
            _ => Err(CellError::CellTaken),
        }
    }

    pub fn get_terrain(&self) -> (r: &Terrain)
        ensures
            *r == self.terrain,
    {
        &self.terrain
    }

    /// A cell is selectable exactly when a unit stands on it: clicking it
    /// then asks for further action.
    pub fn is_selectable(&self) -> (r: bool)
        ensures
            r == (self.occupant is Occupied),
    {
        self.has_unit()
    }

    pub fn get_top_left(&self) -> (r: (i32, i32))
        ensures
            r == self.top_left,
    {
        self.top_left
    }

    pub fn get_bottom_right(&self) -> (r: (i32, i32))
        ensures
            r == self.bottom_right,
    {
        self.bottom_right
    }
}

} // verus!
